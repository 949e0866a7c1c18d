//! How a node reacts to its peers and to its own events.

use vstd::prelude::*;

use crate::channel::Outbox;
use crate::message::{
    Broadcast, ChainTypes, DownloadMessage, HashValue, NetworkMessage, PeerInfo, PeerMessage,
    RPCResponse, RpcRequestMessage, SyncMessage, SystemEvents,
};
use crate::service::NetworkAsyncService;
use futures::channel::mpsc::UnboundedSender;
use libp2p::PeerId;

verus! {

/// What a node has to do about a message from a peer, about a peer, or about an
/// event of its own.
#[derive(Debug, PartialEq, Eq)]
pub enum Action<C: ChainTypes> {
    /// Add the transaction to the pool of pending transactions.
    AddTransaction(C::Transaction),
    /// Tell the bus what a peer knows about the chain.
    BroadcastSync(Broadcast<SyncMessage<C>>),
    /// Tell the bus that a peer awaits an answer.
    BroadcastRpcRequest(Broadcast<RpcRequestMessage<C>>),
    /// Hand the response to whoever waits under the name `id`.
    SendResponse { id: HashValue, response: RPCResponse<C> },
    /// Tell the bus that a peer has come or gone.
    BroadcastPeerEvent(Broadcast<C::PeerEvent>),
    /// Send the bytes to all peers.
    BroadcastMessage(Vec<u8>),
}

/// What a node has to do about `msg`, said by `peer_id`.
pub open spec fn reaction<C: ChainTypes>(peer_id: PeerId, msg: PeerMessage<C>) -> Action<C> {
    match msg {
        PeerMessage::UserTransaction(txn) => Action::AddTransaction(txn),
        PeerMessage::Block(block) => Action::BroadcastSync(
            Broadcast {
                msg: SyncMessage::DownloadMessage(
                    DownloadMessage::NewHeadBlock(PeerInfo { peer_id }, block),
                ),
            },
        ),
        PeerMessage::LatestStateMsg(state) => Action::BroadcastSync(
            Broadcast {
                msg: SyncMessage::DownloadMessage(
                    DownloadMessage::LatestStateMsg(PeerInfo { peer_id }, state),
                ),
            },
        ),
        PeerMessage::RPCRequest(request) => Action::BroadcastRpcRequest(
            Broadcast { msg: RpcRequestMessage { peer_id, request } },
        ),
        PeerMessage::RPCResponse(response) => Action::SendResponse { id: response.id, response },
    }
}

/// What becomes of a message from `peer_id` that was decoded to `decoded`: the
/// reaction to it, or the reason why it could not be understood.
pub open spec fn verdict<C: ChainTypes, E>(
    peer_id: PeerId,
    decoded: Result<PeerMessage<C>, E>,
) -> Result<Action<C>, E> {
    match decoded {
        Ok(msg) => Ok(reaction(peer_id, msg)),
        Err(error) => Err(error),
    }
}

/// `outcome` is what becomes of `network_msg` when `decode` reads it.
pub open spec fn handles<
    C: ChainTypes,
    E,
    D: FnOnce(&Vec<u8>) -> Result<PeerMessage<C>, E>,
>(outcome: Result<Action<C>, E>, network_msg: NetworkMessage, decode: D) -> bool {
    exists|decoded: Result<PeerMessage<C>, E>| #[trigger]
        decode.ensures((&network_msg.data,), decoded) && outcome == verdict(
            network_msg.peer_id,
            decoded,
        )
}

/// What a node tells all its peers when `event` happens, if anything.
pub open spec fn announcement<C: ChainTypes>(event: SystemEvents<C>) -> Option<PeerMessage<C>> {
    match event {
        SystemEvents::NewUserTransaction(txn) => Some(PeerMessage::UserTransaction(txn)),
        SystemEvents::NewHeadBlock(block) => Some(PeerMessage::Block(block)),
        SystemEvents::Other => None,
    }
}

/// `outcome` is what a node has to do when `event` happens: send the encoded
/// announcement to all peers, or nothing.
pub open spec fn announces<C: ChainTypes, F: FnOnce(&PeerMessage<C>) -> Vec<u8>>(
    outcome: Option<Action<C>>,
    event: SystemEvents<C>,
    encode: F,
) -> bool {
    match announcement(event) {
        Some(msg) => outcome matches Some(Action::BroadcastMessage(bytes)) && encode.ensures(
            (&msg,),
            bytes,
        ),
        None => outcome is None,
    }
}

/// The seeds of a node as one text, one after the other.
pub fn seed_list(seeds: &Vec<String>) -> (list: String)
    ensures
        list@ == seeds@.map_values(|seed: String| seed@).flatten(),
{
    let ghost texts = seeds@.map_values(|seed: String| seed@);
    let mut list: String = String::new();
    let mut i: usize = 0;
    while i < seeds.len()
        invariant
            i <= seeds.len(),
            texts == seeds@.map_values(|seed: String| seed@),
            list@ == texts.take(i as int).flatten_alt(),
        decreases seeds.len() - i,
    {
        proof {
            assert(texts.take(i + 1).drop_last() == texts.take(i as int));
            assert(texts.take(i + 1).last() == seeds@[i as int]@);
        }
        list.append(seeds[i].as_str());
        i = i + 1;
    }
    proof {
        assert(texts.take(i as int) == texts);
        texts.lemma_flatten_and_flatten_alt_are_equivalent();
    }
    list
}

/// The part of a node that listens: to its peers and to the node itself.
///
/// Its decisions depend on what it hears and on nothing else. They are made
/// without the actor's channels in reach, so deciding puts nothing on them.
pub struct NetworkActor {
    tx: Outbox,
    tx_command: UnboundedSender<()>,
}

impl NetworkActor {
    /// A handle on the channel that takes this node's messages to the wire.
    pub closed spec fn outbox(&self) -> Outbox {
        self.tx
    }

    /// The channel that steers the network underneath. It stays open for as long
    /// as the actor lives.
    pub closed spec fn commands(&self) -> UnboundedSender<()> {
        self.tx_command
    }

    /// The two sides of the node that the network underneath knows as `identity`:
    /// the actor that listens and the service that speaks. Each gets a
    /// handle on the one channel to the wire. No other handle is made, and nothing
    /// is put on the channel yet.
    pub fn launch(
        identity: &PeerId,
        tx: UnboundedSender<NetworkMessage>,
        tx_command: UnboundedSender<()>,
    ) -> (node: (NetworkActor, NetworkAsyncService))
        ensures
            node.0.outbox().channel() == tx,
            node.0.outbox().is_unused(),
            node.0.outbox().path() == seq![0nat],
            node.0.outbox().forks() == 0,
            node.0.commands() == tx_command,
            node.1.outbox().channel() == tx,
            node.1.outbox().is_unused(),
            node.1.outbox().path() == Seq::<nat>::empty(),
            node.1.outbox().forks() == 1,
            node.1.identity() == *identity,
    {
        let mut outbox = Outbox::new(tx);
        let actor = NetworkActor { tx: outbox.fork(), tx_command };
        (actor, NetworkAsyncService::new(outbox, *identity))
    }

    /// Decides about a message from the wire. A message that `decode` refuses
    /// leads to no action.
    pub fn handle_message<C: ChainTypes, E, D: FnOnce(&Vec<u8>) -> Result<PeerMessage<C>, E>>(
        network_msg: NetworkMessage,
        decode: D,
    ) -> (outcome: Result<Action<C>, E>)
        requires
            decode.requires((&network_msg.data,)),
        ensures
            handles(outcome, network_msg, decode),
    {
        let decoded = decode(&network_msg.data);
        Self::handle_decoded(network_msg.peer_id, decoded)
    }

    /// Decides about a message from `peer_id`, given what decoding it has come to.
    pub fn handle_decoded<C: ChainTypes, E>(
        peer_id: PeerId,
        decoded: Result<PeerMessage<C>, E>,
    ) -> (outcome: Result<Action<C>, E>)
        ensures
            outcome == verdict(peer_id, decoded),
    {
        match decoded {
            Ok(msg) => Ok(Self::handle_network_message(peer_id, msg)),
            Err(error) => Err(error),
        }
    }

    /// Decides about a message that `peer_id` has said.
    pub fn handle_network_message<C: ChainTypes>(peer_id: PeerId, msg: PeerMessage<C>) -> (
    action: Action<C>)
        ensures
            action == reaction(peer_id, msg),
    {
        match msg {
            PeerMessage::UserTransaction(txn) => Action::AddTransaction(txn),
            PeerMessage::Block(block) => {
                let peer_info = PeerInfo::new(peer_id);
                Action::BroadcastSync(
                    Broadcast {
                        msg: SyncMessage::DownloadMessage(
                            DownloadMessage::NewHeadBlock(peer_info, block),
                        ),
                    },
                )
            },
            PeerMessage::LatestStateMsg(state) => {
                let peer_info = PeerInfo::new(peer_id);
                Action::BroadcastSync(
                    Broadcast {
                        msg: SyncMessage::DownloadMessage(
                            DownloadMessage::LatestStateMsg(peer_info, state),
                        ),
                    },
                )
            },
            PeerMessage::RPCRequest(request) => Action::BroadcastRpcRequest(
                Broadcast { msg: RpcRequestMessage { peer_id, request } },
            ),
            PeerMessage::RPCResponse(response) => {
                let id = response.get_id();
                Action::SendResponse { id, response }
            },
        }
    }

    /// Decides about the coming or going of a peer: the whole bus learns of it.
    pub fn handle_peer_event<C: ChainTypes>(event: C::PeerEvent) -> (action: Action<C>)
        ensures
            action == Action::<C>::BroadcastPeerEvent(Broadcast { msg: event }),
    {
        Action::BroadcastPeerEvent(Broadcast { msg: event })
    }

    /// Decides about an event of the node: if it concerns the peers, all of them
    /// are told.
    pub fn handle_system_event<C: ChainTypes, F: FnOnce(&PeerMessage<C>) -> Vec<u8>>(
        event: SystemEvents<C>,
        encode: F,
    ) -> (outcome: Option<Action<C>>)
        requires
            announcement(event) matches Some(msg) ==> encode.requires((&msg,)),
        ensures
            announces(outcome, event, encode),
    {
        match Self::announce(event) {
            Some(msg) => Some(Action::BroadcastMessage(encode(&msg))),
            None => None,
        }
    }

    /// What all peers are told when `event` happens, if anything.
    pub fn announce<C: ChainTypes>(event: SystemEvents<C>) -> (msg: Option<PeerMessage<C>>)
        ensures
            msg == announcement(event),
    {
        match event {
            SystemEvents::NewUserTransaction(txn) => Some(PeerMessage::UserTransaction(txn)),
            SystemEvents::NewHeadBlock(block) => Some(PeerMessage::Block(block)),
            SystemEvents::Other => None,
        }
    }
}

} // verus!
