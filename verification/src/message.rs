//! The values that travel between peers, and between the network and the rest
//! of the node.

use vstd::prelude::*;

use libp2p::PeerId;
use std::fmt::Debug;

verus! {

/// The identity of a peer, `libp2p::PeerId`, taken as an opaque value: the
/// library carries it and never looks inside.
#[verifier::external_type_specification]
#[verifier::external_body]
pub struct ExPeerId(libp2p::PeerId);

/// The payloads that the nodes of a chain exchange, and what a node learns of its
/// peers. The network forwards them unopened.
pub trait ChainTypes: Sized {
    /// A signed user transaction.
    type Transaction: Debug + PartialEq + Eq;

    /// A block.
    type Block: Debug + PartialEq + Eq;

    /// A peer's latest state.
    type State: Debug + PartialEq + Eq;

    /// What a request asks for.
    type RequestBody: Debug + PartialEq + Eq;

    /// What a response says.
    type ResponseBody: Debug + PartialEq + Eq;

    /// The coming or going of a peer.
    type PeerEvent: Debug + PartialEq + Eq;
}

/// A 32-byte digest. It names a request.
#[derive(Clone, Copy, Debug, PartialEq, Eq, Hash)]
pub struct HashValue {
    pub bytes: [u8; 32],
}

/// A request to a peer, together with the digest that names it.
#[derive(Debug, PartialEq, Eq)]
pub struct RPCRequest<C: ChainTypes> {
    pub id: HashValue,
    pub body: C::RequestBody,
}

impl<C: ChainTypes> RPCRequest<C> {
    /// The digest that names this request.
    pub fn get_id(&self) -> (id: HashValue)
        ensures
            id == self.id,
    {
        self.id
    }
}

/// A response to a peer, together with the name of the request it answers.
#[derive(Debug, PartialEq, Eq)]
pub struct RPCResponse<C: ChainTypes> {
    pub id: HashValue,
    pub body: C::ResponseBody,
}

impl<C: ChainTypes> RPCResponse<C> {
    /// This response as the answer to the request named `id`.
    pub open spec fn answering(self, id: HashValue) -> RPCResponse<C> {
        RPCResponse { id, body: self.body }
    }

    /// The name of the request that this response answers.
    pub fn get_id(&self) -> (id: HashValue)
        ensures
            id == self.id,
    {
        self.id
    }

    /// Makes this response the answer to the request named `id`, and leaves
    /// what it says untouched.
    pub fn set_request_id(&mut self, id: HashValue)
        ensures
            *final(self) == old(self).answering(id),
    {
        self.id = id;
    }
}

/// Everything that one peer says to another.
#[derive(Debug, PartialEq, Eq)]
pub enum PeerMessage<C: ChainTypes> {
    UserTransaction(C::Transaction),
    Block(C::Block),
    LatestStateMsg(C::State),
    RPCRequest(RPCRequest<C>),
    RPCResponse(RPCResponse<C>),
}

/// An encoded [`PeerMessage`]. On its way out, `peer_id` is the peer that it
/// goes to; on its way in, the peer that it comes from.
#[derive(Debug, PartialEq, Eq)]
pub struct NetworkMessage {
    pub peer_id: PeerId,
    pub data: Vec<u8>,
}

/// A peer, as the rest of the node knows it.
#[derive(Debug, PartialEq, Eq)]
pub struct PeerInfo {
    pub peer_id: PeerId,
}

impl PeerInfo {
    pub fn new(peer_id: PeerId) -> (info: PeerInfo)
        ensures
            info.peer_id == peer_id,
    {
        PeerInfo { peer_id }
    }
}

/// News from a peer for whatever keeps the chain up to date.
#[derive(Debug, PartialEq, Eq)]
pub enum DownloadMessage<C: ChainTypes> {
    NewHeadBlock(PeerInfo, C::Block),
    LatestStateMsg(PeerInfo, C::State),
}

/// What the network tells the synchronisation side of the node.
#[derive(Debug, PartialEq, Eq)]
pub enum SyncMessage<C: ChainTypes> {
    DownloadMessage(DownloadMessage<C>),
}

/// A request that a peer has sent, together with the peer that awaits the answer.
#[derive(Debug, PartialEq, Eq)]
pub struct RpcRequestMessage<C: ChainTypes> {
    pub peer_id: PeerId,
    pub request: RPCRequest<C>,
}

/// A message for every subscriber on the node's bus.
#[derive(Debug, PartialEq, Eq)]
pub struct Broadcast<M> {
    pub msg: M,
}

/// What happens inside the node.
#[derive(Debug, PartialEq, Eq)]
pub enum SystemEvents<C: ChainTypes> {
    /// The node has accepted a transaction of one of its users.
    NewUserTransaction(C::Transaction),
    /// The node's chain has a new head.
    NewHeadBlock(C::Block),
    /// Any event that is of no concern to the peers.
    Other,
}

} // verus!
