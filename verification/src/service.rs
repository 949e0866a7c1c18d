//! The handle through which the rest of the node talks to its peers.

use vstd::prelude::*;

use crate::channel::Outbox;
use crate::message::{
    ChainTypes, HashValue, NetworkMessage, PeerMessage, RPCRequest, RPCResponse, SystemEvents,
};
use libp2p::PeerId;

verus! {

/// Why a message did not leave the node.
#[derive(Debug, PartialEq, Eq)]
pub enum NetworkError {
    /// The network has shut down. The message that was not sent comes back.
    Disconnected(NetworkMessage),
}

/// `framed` is addressed to `peer_id` and holds an encoding of `msg`.
pub open spec fn frames<C: ChainTypes, F: FnOnce(&PeerMessage<C>) -> Vec<u8>>(
    framed: NetworkMessage,
    peer_id: PeerId,
    msg: PeerMessage<C>,
    encode: F,
) -> bool {
    &&& framed.peer_id == peer_id
    &&& encode.ensures((&msg,), framed.data)
}

/// The message that was offered last, if offering it came to `outcome` and left the
/// handle as `outbox`.
pub open spec fn offered(outcome: Result<(), NetworkError>, outbox: Outbox) -> NetworkMessage {
    match outcome {
        Ok(()) => outbox.sent().last(),
        Err(_) => outbox.refused().last(),
    }
}

/// From `before` to `after` the channel was offered `message` and nothing else. It
/// took it as the last so far, or refused it and gave it back, as `outcome` tells.
pub open spec fn offers(
    outcome: Result<(), NetworkError>,
    before: Outbox,
    after: Outbox,
    message: NetworkMessage,
) -> bool {
    &&& after.is_still(before)
    &&& match outcome {
        Ok(()) => {
            &&& after.sent() == before.sent().push(message)
            &&& after.refused() == before.refused()
        },
        Err(error) => {
            &&& after.sent() == before.sent()
            &&& after.refused() == before.refused().push(message)
            &&& error == NetworkError::Disconnected(message)
        },
    }
}

/// From `before` to `after`, `msg` was sent to `peer_id`, and nothing else was sent:
/// whatever the channel answered, it was offered one message, the framed one.
pub open spec fn sends<C: ChainTypes, F: FnOnce(&PeerMessage<C>) -> Vec<u8>>(
    outcome: Result<(), NetworkError>,
    before: Outbox,
    after: Outbox,
    peer_id: PeerId,
    msg: PeerMessage<C>,
    encode: F,
) -> bool {
    &&& offers(outcome, before, after, offered(outcome, after))
    &&& frames(offered(outcome, after), peer_id, msg, encode)
}

/// The outcome of a request as that of its message, leaving aside the name that
/// the request is pending under.
pub open spec fn transmission(outcome: Result<HashValue, NetworkError>) -> Result<
    (),
    NetworkError,
> {
    match outcome {
        Ok(_) => Ok(()),
        Err(error) => Err(error),
    }
}

/// From `before` to `after`, `request` was sent to `peer_id`, and nothing else was
/// sent. Only a request that the channel took is pending, and under its own name.
pub open spec fn requests<C: ChainTypes, F: FnOnce(&PeerMessage<C>) -> Vec<u8>>(
    outcome: Result<HashValue, NetworkError>,
    before: Outbox,
    after: Outbox,
    peer_id: PeerId,
    request: RPCRequest<C>,
    encode: F,
) -> bool {
    &&& sends(
        transmission(outcome),
        before,
        after,
        peer_id,
        PeerMessage::RPCRequest(request),
        encode,
    )
    &&& outcome matches Ok(id) ==> id == request.id
}

/// The frame that takes `data` to `peer_id`.
pub fn frame(peer_id: PeerId, data: Vec<u8>) -> (framed: NetworkMessage)
    ensures
        framed == (NetworkMessage { peer_id, data }),
{
    NetworkMessage { peer_id, data }
}

/// The result that a caller sees when the channel answers `outcome`.
pub fn settle(outcome: Result<(), NetworkMessage>) -> (result: Result<(), NetworkError>)
    ensures
        result == match outcome {
            Ok(()) => Ok::<(), NetworkError>(()),
            Err(unsent) => Err::<(), NetworkError>(NetworkError::Disconnected(unsent)),
        },
{
    match outcome {
        Ok(()) => Ok(()),
        Err(unsent) => Err(NetworkError::Disconnected(unsent)),
    }
}

/// A node's side of the conversation with its peers.
pub struct NetworkAsyncService {
    tx: Outbox,
    peer_id: PeerId,
}

impl NetworkAsyncService {
    /// The handle by which this node's messages go to the wire.
    pub closed spec fn outbox(&self) -> Outbox {
        self.tx
    }

    /// The identity of this node.
    pub closed spec fn identity(&self) -> PeerId {
        self.peer_id
    }

    /// The service of the node known as `peer_id`, whose messages leave by `tx`.
    pub fn new(tx: Outbox, peer_id: PeerId) -> (service: Self)
        ensures
            service.outbox() == tx,
            service.identity() == peer_id,
    {
        NetworkAsyncService { tx, peer_id }
    }

    /// Sends `msg` to `peer_id`.
    pub fn send_peer_message<C: ChainTypes, F: FnOnce(&PeerMessage<C>) -> Vec<u8>>(
        &mut self,
        peer_id: PeerId,
        msg: PeerMessage<C>,
        encode: F,
    ) -> (outcome: Result<(), NetworkError>)
        requires
            encode.requires((&msg,)),
        ensures
            sends(outcome, old(self).outbox(), final(self).outbox(), peer_id, msg, encode),
            final(self).identity() == old(self).identity(),
    {
        let data = encode(&msg);
        settle(self.tx.unbounded_send(frame(peer_id, data)))
    }

    /// Passes an event of the node to its network actor by way of `deliver`. What
    /// comes of the delivery is not the caller's concern: the call succeeds. The
    /// service is only read, so nothing goes to the wire by it.
    pub fn broadcast_system_event<C: ChainTypes, R, D: FnOnce(SystemEvents<C>) -> R>(
        &self,
        event: SystemEvents<C>,
        deliver: D,
    ) -> (outcome: Result<R, NetworkError>)
        requires
            deliver.requires((event,)),
        ensures
            outcome matches Ok(delivery) && deliver.ensures((event,), delivery),
    {
        Ok(deliver(event))
    }

    /// Sends a request to `peer_id`. Its answer will arrive under the name that
    /// comes back: the caller registers under it, and only then waits.
    pub fn send_request<C: ChainTypes, F: FnOnce(&PeerMessage<C>) -> Vec<u8>>(
        &mut self,
        peer_id: PeerId,
        message: RPCRequest<C>,
        encode: F,
    ) -> (outcome: Result<HashValue, NetworkError>)
        requires
            encode.requires((&PeerMessage::RPCRequest(message),)),
        ensures
            requests(outcome, old(self).outbox(), final(self).outbox(), peer_id, message, encode),
            final(self).identity() == old(self).identity(),
    {
        let request_id = message.get_id();
        match self.send_peer_message(peer_id, PeerMessage::RPCRequest(message), encode) {
            Ok(()) => Ok(request_id),
            Err(error) => Err(error),
        }
    }

    /// Sends `response` to `peer_id` as the answer to the request named `id`.
    pub fn response_for<C: ChainTypes, F: FnOnce(&PeerMessage<C>) -> Vec<u8>>(
        &mut self,
        peer_id: PeerId,
        id: HashValue,
        response: RPCResponse<C>,
        encode: F,
    ) -> (outcome: Result<(), NetworkError>)
        requires
            encode.requires((&PeerMessage::RPCResponse(response.answering(id)),)),
        ensures
            sends(
                outcome,
                old(self).outbox(),
                final(self).outbox(),
                peer_id,
                PeerMessage::RPCResponse(response.answering(id)),
                encode,
            ),
            final(self).identity() == old(self).identity(),
    {
        let mut response = response;
        response.set_request_id(id);
        self.send_peer_message(peer_id, PeerMessage::RPCResponse(response), encode)
    }

    /// The identity of this node.
    pub fn identify(&self) -> (peer_id: &PeerId)
        ensures
            *peer_id == self.identity(),
    {
        &self.peer_id
    }

    /// A second service that speaks for the same node, by the same channel.
    pub fn fork(&mut self) -> (fork: Self)
        ensures
            crate::channel::forked(old(self).outbox(), final(self).outbox(), fork.outbox()),
            final(self).identity() == old(self).identity(),
            fork.identity() == old(self).identity(),
    {
        NetworkAsyncService { tx: self.tx.fork(), peer_id: self.peer_id }
    }
}

} // verus!
