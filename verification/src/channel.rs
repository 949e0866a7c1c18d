//! The channel that takes messages to the wire.

use vstd::prelude::*;

use crate::message::NetworkMessage;
use futures::channel::mpsc::UnboundedSender;

verus! {

/// The sending half of a channel, `futures::channel::mpsc::UnboundedSender`,
/// taken as an opaque value.
#[verifier::external_type_specification]
#[verifier::external_body]
#[verifier::reject_recursive_types(T)]
pub struct ExUnboundedSender<T>(futures::channel::mpsc::UnboundedSender<T>);

/// A handle on the channel to the wire, with a log of what it was used for.
///
/// Messages are offered to the channel, and further handles on it are made, through
/// an exclusive reference only. So the log accounts for everything that a function
/// does to the channel: where it is the same handle before and after, with the same
/// log, nothing was offered, and no other handle was made by which something could
/// have been.
pub struct Outbox {
    sender: UnboundedSender<NetworkMessage>,
    sent: Ghost<Seq<NetworkMessage>>,
    refused: Ghost<Seq<NetworkMessage>>,
    path: Ghost<Seq<nat>>,
    forks: Ghost<nat>,
}

impl Outbox {
    /// The channel that this is a handle on.
    pub closed spec fn channel(&self) -> UnboundedSender<NetworkMessage> {
        self.sender
    }

    /// The messages that the channel took, in their order: those sent by this
    /// handle, after those that were sent by the handle it was forked from until
    /// then.
    pub closed spec fn sent(&self) -> Seq<NetworkMessage> {
        self.sent@
    }

    /// The messages that the channel was offered in the same way and refused.
    pub closed spec fn refused(&self) -> Seq<NetworkMessage> {
        self.refused@
    }

    /// Which handle on its channel this is. The first has the empty path; the path
    /// of a fork is that of the handle it was made of, and the number of forks that
    /// this one had before.
    pub closed spec fn path(&self) -> Seq<nat> {
        self.path@
    }

    /// How many handles were forked from this one.
    pub closed spec fn forks(&self) -> nat {
        self.forks@
    }

    /// This is the handle that `other` was, and no handle was forked from it since.
    pub open spec fn is_still(&self, other: Outbox) -> bool {
        &&& self.channel() == other.channel()
        &&& self.path() == other.path()
        &&& self.forks() == other.forks()
    }

    /// Nothing was ever offered to the channel by this handle.
    pub open spec fn is_unused(&self) -> bool {
        &&& self.sent() == Seq::<NetworkMessage>::empty()
        &&& self.refused() == Seq::<NetworkMessage>::empty()
    }

    /// The first handle on the channel of `sender`.
    pub fn new(sender: UnboundedSender<NetworkMessage>) -> (outbox: Outbox)
        ensures
            outbox.channel() == sender,
            outbox.is_unused(),
            outbox.path() == Seq::<nat>::empty(),
            outbox.forks() == 0,
    {
        Outbox {
            sender,
            sent: Ghost(Seq::empty()),
            refused: Ghost(Seq::empty()),
            path: Ghost(Seq::empty()),
            forks: Ghost(0nat),
        }
    }

    /// Offers `message` to the channel. `UnboundedSender::unbounded_send` either
    /// takes it, behind all that the channel took before, or refuses it because the
    /// receiving half of the channel is gone; then `TrySendError::into_inner` gives
    /// the message back as it was. Which of the two happens is up to the receiver
    /// and is left open here, and so is what lies in the queue: the receiver may
    /// remove a message at any time. The call panics if the channel already holds
    /// more messages than it can count, which no memory can hold.
    #[verifier::external_body]
    pub(crate) fn unbounded_send(&mut self, message: NetworkMessage) -> (outcome: Result<
        (),
        NetworkMessage,
    >)
        ensures
            final(self).is_still(*old(self)),
            match outcome {
                Ok(()) => {
                    &&& final(self).sent() == old(self).sent().push(message)
                    &&& final(self).refused() == old(self).refused()
                },
                Err(unsent) => {
                    &&& unsent == message
                    &&& final(self).sent() == old(self).sent()
                    &&& final(self).refused() == old(self).refused().push(message)
                },
            },
    {
        match self.sender.unbounded_send(message) {
            Ok(()) => Ok(()),
            Err(error) => Err(error.into_inner()),
        }
    }

    /// Makes a second handle on the channel. Cloning an `UnboundedSender` shares its
    /// reference-counted channel, so whatever can be done with the original can be
    /// done with the clone. Cloning past the largest number of senders that the
    /// channel can count, which no memory can hold, panics.
    #[verifier::external_body]
    pub(crate) fn fork(&mut self) -> (fork: Outbox)
        ensures
            forked(*old(self), *final(self), fork),
    {
        Outbox {
            sender: self.sender.clone(),
            sent: self.sent,
            refused: self.refused,
            path: Ghost(self.path@.push(self.forks@)),
            forks: Ghost(0nat),
        }
    }
}

/// From `before` to `after`, `fork` was made of the handle and nothing was offered
/// to the channel. The fork starts with the log of the handle that it was made of.
pub open spec fn forked(before: Outbox, after: Outbox, fork: Outbox) -> bool {
    &&& after.channel() == before.channel()
    &&& after.sent() == before.sent()
    &&& after.refused() == before.refused()
    &&& after.path() == before.path()
    &&& after.forks() == before.forks() + 1
    &&& fork.channel() == before.channel()
    &&& fork.sent() == before.sent()
    &&& fork.refused() == before.refused()
    &&& fork.path() == before.path().push(before.forks())
    &&& fork.forks() == 0
}

} // verus!
