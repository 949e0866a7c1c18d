//! What holds of a network of nodes, whatever they say to each other.
//!
//! The laws on delivery speak of a codec: `encode` turns a message into bytes and
//! `decode` reads it back. A message that leaves one node as `sent` comes in at
//! another as some `received` with the same bytes, and with the sender as its peer.

use vstd::prelude::*;

use crate::actor::{announcement, announces, handles, reaction, Action};
use crate::channel::{forked, Outbox};
use crate::message::{
    Broadcast, ChainTypes, DownloadMessage, HashValue, NetworkMessage, PeerInfo, PeerMessage,
    RPCRequest, RPCResponse, RpcRequestMessage, SyncMessage, SystemEvents,
};
use crate::service::{frames, offered, requests, sends, transmission, NetworkError};
use libp2p::PeerId;

verus! {

/// `decode` reads back every message that `encode` has written.
pub open spec fn undoes<
    C: ChainTypes,
    E,
    F: FnOnce(&PeerMessage<C>) -> Vec<u8>,
    D: FnOnce(&Vec<u8>) -> Result<PeerMessage<C>, E>,
>(decode: D, encode: F) -> bool {
    forall|msg: PeerMessage<C>, written: Vec<u8>, read: Vec<u8>, decoded: Result<PeerMessage<C>, E>|
        #![trigger encode.ensures((&msg,), written), decode.ensures((&read,), decoded)]
        encode.ensures((&msg,), written) && read@ == written@ && decode.ensures((&read,), decoded)
            ==> decoded == Ok::<PeerMessage<C>, E>(msg)
}

/// `encode` writes every message in one way only.
pub open spec fn is_function<C: ChainTypes, F: FnOnce(&PeerMessage<C>) -> Vec<u8>>(
    encode: F,
) -> bool {
    forall|msg: PeerMessage<C>, a: Vec<u8>, b: Vec<u8>|
        #![trigger encode.ensures((&msg,), a), encode.ensures((&msg,), b)]
        encode.ensures((&msg,), a) && encode.ensures((&msg,), b) ==> a@ == b@
}

/// Whoever gets the frame of a message can recover both the peer that it was
/// addressed to and the message.
pub proof fn law_frame_can_be_read_back<
    C: ChainTypes,
    E,
    F: FnOnce(&PeerMessage<C>) -> Vec<u8>,
    D: FnOnce(&Vec<u8>) -> Result<PeerMessage<C>, E>,
>(
    encode: F,
    decode: D,
    peer_id: PeerId,
    msg: PeerMessage<C>,
    sent: NetworkMessage,
    read: Vec<u8>,
    decoded: Result<PeerMessage<C>, E>,
)
    requires
        undoes(decode, encode),
        frames(sent, peer_id, msg, encode),
        read@ == sent.data@,
        decode.ensures((&read,), decoded),
    ensures
        sent.peer_id == peer_id,
        decoded == Ok::<PeerMessage<C>, E>(msg),
{
}

/// `x` and `y` are addressed to the same peer and hold the same bytes.
pub open spec fn same_frame(x: NetworkMessage, y: NetworkMessage) -> bool {
    &&& x.peer_id == y.peer_id
    &&& x.data@ == y.data@
}

/// `a` and `b` are both successes, or failures that give back the same frame.
pub open spec fn same_report(a: Result<(), NetworkError>, b: Result<(), NetworkError>) -> bool {
    match (a, b) {
        (Ok(()), Ok(())) => true,
        (
            Err(NetworkError::Disconnected(x)),
            Err(NetworkError::Disconnected(y)),
        ) => same_frame(x, y),
        _ => false,
    }
}

/// Two frames of one message to one peer are equal, if messages are written in
/// one way only.
pub proof fn law_frame_is_determined<C: ChainTypes, F: FnOnce(&PeerMessage<C>) -> Vec<u8>>(
    encode: F,
    peer_id: PeerId,
    msg: PeerMessage<C>,
    x: NetworkMessage,
    y: NetworkMessage,
)
    requires
        is_function(encode),
        frames(x, peer_id, msg, encode),
        frames(y, peer_id, msg, encode),
    ensures
        same_frame(x, y),
{
}

/// A message that is sent is one message more on the channel, the last one, and
/// nothing is refused. A message that is not sent leaves what the channel took as it
/// was and is one refused message more, the one that comes back.
pub proof fn law_send_adds_one_message<C: ChainTypes, F: FnOnce(&PeerMessage<C>) -> Vec<u8>>(
    encode: F,
    peer_id: PeerId,
    msg: PeerMessage<C>,
    outcome: Result<(), NetworkError>,
    before: Outbox,
    after: Outbox,
)
    requires
        sends(outcome, before, after, peer_id, msg, encode),
    ensures
        after.channel() == before.channel(),
        after.path() == before.path(),
        after.forks() == before.forks(),
        outcome is Ok ==> {
            &&& after.sent().len() == before.sent().len() + 1
            &&& after.sent().drop_last() == before.sent()
            &&& after.sent().last().peer_id == peer_id
            &&& encode.ensures((&msg,), after.sent().last().data)
            &&& after.refused() == before.refused()
        },
        outcome matches Err(NetworkError::Disconnected(unsent)) ==> {
            &&& after.sent() == before.sent()
            &&& after.refused().len() == before.refused().len() + 1
            &&& after.refused().drop_last() == before.refused()
            &&& after.refused().last() == unsent
            &&& unsent.peer_id == peer_id
            &&& encode.ensures((&msg,), unsent.data)
        },
{
}

/// A request that succeeds is one message more on the channel, the last one, and
/// nothing is refused. A request that fails leaves what the channel took as it was
/// and is one refused message more, the one that comes back.
pub proof fn law_request_adds_one_message<C: ChainTypes, F: FnOnce(&PeerMessage<C>) -> Vec<u8>>(
    encode: F,
    peer_id: PeerId,
    request: RPCRequest<C>,
    outcome: Result<HashValue, NetworkError>,
    before: Outbox,
    after: Outbox,
)
    requires
        requests(outcome, before, after, peer_id, request, encode),
    ensures
        after.channel() == before.channel(),
        after.path() == before.path(),
        after.forks() == before.forks(),
        outcome matches Ok(id) ==> {
            &&& id == request.id
            &&& after.sent().len() == before.sent().len() + 1
            &&& after.sent().drop_last() == before.sent()
            &&& after.sent().last().peer_id == peer_id
            &&& encode.ensures((&PeerMessage::RPCRequest(request),), after.sent().last().data)
            &&& after.refused() == before.refused()
        },
        outcome matches Err(NetworkError::Disconnected(unsent)) ==> {
            &&& after.sent() == before.sent()
            &&& after.refused().len() == before.refused().len() + 1
            &&& after.refused().drop_last() == before.refused()
            &&& after.refused().last() == unsent
            &&& unsent.peer_id == peer_id
            &&& encode.ensures((&PeerMessage::RPCRequest(request),), unsent.data)
        },
{
}

/// A request goes out as the plain message with that request would: the channel
/// is offered the same, and where it answers the same, the caller is told the
/// same. A request differs only in that it is pending once the channel took it.
pub proof fn law_request_goes_out_as_a_message<
    C: ChainTypes,
    F: FnOnce(&PeerMessage<C>) -> Vec<u8>,
>(
    encode: F,
    peer_id: PeerId,
    request: RPCRequest<C>,
    as_request: Result<HashValue, NetworkError>,
    request_before: Outbox,
    request_after: Outbox,
    as_message: Result<(), NetworkError>,
    message_before: Outbox,
    message_after: Outbox,
)
    requires
        is_function(encode),
        requests(as_request, request_before, request_after, peer_id, request, encode),
        sends(
            as_message,
            message_before,
            message_after,
            peer_id,
            PeerMessage::RPCRequest(request),
            encode,
        ),
    ensures
        same_frame(
            offered(transmission(as_request), request_after),
            offered(as_message, message_after),
        ),
        as_request is Ok == as_message is Ok ==> same_report(transmission(as_request), as_message),
        as_request matches Ok(id) ==> id == request.id,
{
    law_frame_is_determined(
        encode,
        peer_id,
        PeerMessage::RPCRequest(request),
        offered(transmission(as_request), request_after),
        offered(as_message, message_after),
    );
}

/// Answering is sending the response with the request's name on it: the channel is
/// offered the same, and where it answers the same, the caller is told the same.
pub proof fn law_answer_goes_out_as_a_message<
    C: ChainTypes,
    F: FnOnce(&PeerMessage<C>) -> Vec<u8>,
>(
    encode: F,
    peer_id: PeerId,
    msg: PeerMessage<C>,
    id: HashValue,
    response: RPCResponse<C>,
    answered: Result<(), NetworkError>,
    answer_before: Outbox,
    answer_after: Outbox,
    sent: Result<(), NetworkError>,
    message_before: Outbox,
    message_after: Outbox,
)
    requires
        is_function(encode),
        msg == PeerMessage::RPCResponse(response.answering(id)),
        sends(
            answered,
            answer_before,
            answer_after,
            peer_id,
            PeerMessage::RPCResponse(response.answering(id)),
            encode,
        ),
        sends(sent, message_before, message_after, peer_id, msg, encode),
    ensures
        same_frame(offered(answered, answer_after), offered(sent, message_after)),
        answered is Ok == sent is Ok ==> same_report(answered, sent),
{
    law_frame_is_determined(
        encode,
        peer_id,
        msg,
        offered(answered, answer_after),
        offered(sent, message_after),
    );
}

/// The name that a response holds before it is made an answer has no influence on
/// what goes out.
pub proof fn law_earlier_name_has_no_influence<
    C: ChainTypes,
    F: FnOnce(&PeerMessage<C>) -> Vec<u8>,
>(
    encode: F,
    peer_id: PeerId,
    id: HashValue,
    earlier: HashValue,
    response: RPCResponse<C>,
    first: Result<(), NetworkError>,
    first_before: Outbox,
    first_after: Outbox,
    second: Result<(), NetworkError>,
    second_before: Outbox,
    second_after: Outbox,
)
    requires
        is_function(encode),
        sends(
            first,
            first_before,
            first_after,
            peer_id,
            PeerMessage::RPCResponse(response.answering(id)),
            encode,
        ),
        sends(
            second,
            second_before,
            second_after,
            peer_id,
            PeerMessage::RPCResponse(response.answering(earlier).answering(id)),
            encode,
        ),
    ensures
        same_frame(offered(first, first_after), offered(second, second_after)),
        first is Ok == second is Ok ==> same_report(first, second),
{
    law_last_request_id_counts(response, earlier, id);
    law_frame_is_determined(
        encode,
        peer_id,
        PeerMessage::RPCResponse(response.answering(id)),
        offered(first, first_after),
        offered(second, second_after),
    );
}

/// A send fails only by a refusal: the channel was offered the framed message once,
/// refused it, and the message comes back unchanged. What was sent before stays
/// all that was sent.
pub proof fn law_failure_is_a_refusal<C: ChainTypes, F: FnOnce(&PeerMessage<C>) -> Vec<u8>>(
    encode: F,
    before: Outbox,
    after: Outbox,
    peer_id: PeerId,
    msg: PeerMessage<C>,
    unsent: NetworkMessage,
)
    requires
        sends(
            Err(NetworkError::Disconnected(unsent)),
            before,
            after,
            peer_id,
            msg,
            encode,
        ),
    ensures
        after.refused() == before.refused().push(unsent),
        after.sent() == before.sent(),
        frames(unsent, peer_id, msg, encode),
{
}

/// Two messages that were sent one after the other went to the channel in that
/// order, behind all that was sent before. None is merged or lost, not even where
/// the two are equal.
pub proof fn law_sends_keep_their_order<
    C: ChainTypes,
    F: FnOnce(&PeerMessage<C>) -> Vec<u8>,
    G: FnOnce(&PeerMessage<C>) -> Vec<u8>,
>(
    encode_first: F,
    encode_second: G,
    before: Outbox,
    between: Outbox,
    after: Outbox,
    first_peer: PeerId,
    first_msg: PeerMessage<C>,
    second_peer: PeerId,
    second_msg: PeerMessage<C>,
)
    requires
        sends(Ok(()), before, between, first_peer, first_msg, encode_first),
        sends(Ok(()), between, after, second_peer, second_msg, encode_second),
    ensures
        after.channel() == before.channel(),
        after.sent().len() == before.sent().len() + 2,
        after.sent().take(before.sent().len() as int) == before.sent(),
        frames(after.sent()[before.sent().len() as int], first_peer, first_msg, encode_first),
        frames(after.sent().last(), second_peer, second_msg, encode_second),
        after.refused() == before.refused(),
{
    assert(between.sent().last() == after.sent()[before.sent().len() as int]);
}

/// The same holds of a message that was sent by a service and one that a fork of
/// it, made in between, sends after that: they went to one channel, in that order.
pub proof fn law_fork_sends_behind_its_origin<
    C: ChainTypes,
    F: FnOnce(&PeerMessage<C>) -> Vec<u8>,
    G: FnOnce(&PeerMessage<C>) -> Vec<u8>,
>(
    encode_first: F,
    encode_second: G,
    before: Outbox,
    between: Outbox,
    origin: Outbox,
    fork: Outbox,
    after: Outbox,
    first_peer: PeerId,
    first_msg: PeerMessage<C>,
    second_peer: PeerId,
    second_msg: PeerMessage<C>,
)
    requires
        sends(Ok(()), before, between, first_peer, first_msg, encode_first),
        forked(between, origin, fork),
        sends(Ok(()), fork, after, second_peer, second_msg, encode_second),
    ensures
        after.channel() == origin.channel(),
        after.sent().len() == before.sent().len() + 2,
        after.sent().take(before.sent().len() as int) == before.sent(),
        frames(after.sent()[before.sent().len() as int], first_peer, first_msg, encode_first),
        frames(after.sent().last(), second_peer, second_msg, encode_second),
        origin.sent() == between.sent(),
{
    assert(between.sent().last() == after.sent()[before.sent().len() as int]);
}

/// A message arrives as it was sent: the node that gets it reacts to that very
/// message, as said by the peer that it comes from.
pub proof fn law_message_arrives<
    C: ChainTypes,
    E,
    F: FnOnce(&PeerMessage<C>) -> Vec<u8>,
    D: FnOnce(&Vec<u8>) -> Result<PeerMessage<C>, E>,
>(
    encode: F,
    decode: D,
    peer_id: PeerId,
    msg: PeerMessage<C>,
    sent: NetworkMessage,
    received: NetworkMessage,
    outcome: Result<Action<C>, E>,
)
    requires
        undoes(decode, encode),
        frames(sent, peer_id, msg, encode),
        received.data@ == sent.data@,
        handles(outcome, received, decode),
    ensures
        sent.peer_id == peer_id,
        outcome == Ok::<Action<C>, E>(reaction(received.peer_id, msg)),
{
}

/// An answer finds its question. The node `asker` sends `request` to `responder`;
/// there it turns up as asked by `asker`. When `responder` answers the question as
/// it turned up there, the answer goes to `asker` and is handed to whoever waits
/// under the name that the request was pending by.
pub proof fn law_answer_finds_its_question<
    C: ChainTypes,
    E,
    F: FnOnce(&PeerMessage<C>) -> Vec<u8>,
    D: FnOnce(&Vec<u8>) -> Result<PeerMessage<C>, E>,
>(
    encode: F,
    decode: D,
    asker: PeerId,
    responder: PeerId,
    request: RPCRequest<C>,
    pending: HashValue,
    asker_before: Outbox,
    asker_after: Outbox,
    question: RpcRequestMessage<C>,
    question_in: NetworkMessage,
    response: RPCResponse<C>,
    responder_before: Outbox,
    responder_after: Outbox,
    answer_in: NetworkMessage,
    answer: Result<Action<C>, E>,
)
    requires
        undoes(decode, encode),
        requests(Ok(pending), asker_before, asker_after, responder, request, encode),
        question_in.peer_id == asker,
        question_in.data@ == asker_after.sent().last().data@,
        handles(
            Ok::<Action<C>, E>(Action::BroadcastRpcRequest(Broadcast { msg: question })),
            question_in,
            decode,
        ),
        sends(
            Ok(()),
            responder_before,
            responder_after,
            question.peer_id,
            PeerMessage::RPCResponse(response.answering(question.request.id)),
            encode,
        ),
        answer_in.peer_id == responder,
        answer_in.data@ == responder_after.sent().last().data@,
        handles(answer, answer_in, decode),
    ensures
        asker_after.sent().last().peer_id == responder,
        question == (RpcRequestMessage { peer_id: asker, request }),
        responder_after.sent().last().peer_id == asker,
        answer == Ok::<Action<C>, E>(
            Action::SendResponse { id: pending, response: response.answering(pending) },
        ),
{
    law_message_arrives(
        encode,
        decode,
        responder,
        PeerMessage::RPCRequest(request),
        asker_after.sent().last(),
        question_in,
        Ok::<Action<C>, E>(Action::BroadcastRpcRequest(Broadcast { msg: question })),
    );
    law_message_arrives(
        encode,
        decode,
        question.peer_id,
        PeerMessage::RPCResponse(response.answering(question.request.id)),
        responder_after.sent().last(),
        answer_in,
        answer,
    );
}

/// News spreads. What a node announces of an event is what its peers act on: a
/// new transaction enters their pools, and a new head block reaches their buses
/// with the node as its source. Of any other event they hear nothing.
pub proof fn law_news_spreads<
    C: ChainTypes,
    E,
    F: FnOnce(&PeerMessage<C>) -> Vec<u8>,
    D: FnOnce(&Vec<u8>) -> Result<PeerMessage<C>, E>,
>(
    encode: F,
    decode: D,
    source: PeerId,
    event: SystemEvents<C>,
    announced: Option<Action<C>>,
    received: NetworkMessage,
    outcome: Result<Action<C>, E>,
)
    requires
        undoes(decode, encode),
        announces(announced, event, encode),
        received.peer_id == source,
        announced matches Some(Action::BroadcastMessage(bytes)) ==> received.data@ == bytes@,
        handles(outcome, received, decode),
    ensures
        match event {
            SystemEvents::NewUserTransaction(txn) => announced is Some && outcome == Ok::<
                Action<C>,
                E,
            >(Action::AddTransaction(txn)),
            SystemEvents::NewHeadBlock(block) => announced is Some && outcome == Ok::<Action<C>, E>(
                Action::BroadcastSync(
                    Broadcast {
                        msg: SyncMessage::DownloadMessage(
                            DownloadMessage::NewHeadBlock(PeerInfo { peer_id: source }, block),
                        ),
                    },
                ),
            ),
            SystemEvents::Other => announced is None,
        },
{
}

/// A message that cannot be decoded leads to no action.
pub proof fn law_unreadable_is_dropped<
    C: ChainTypes,
    E,
    D: FnOnce(&Vec<u8>) -> Result<PeerMessage<C>, E>,
>(decode: D, received: NetworkMessage, outcome: Result<Action<C>, E>)
    requires
        forall|decoded: Result<PeerMessage<C>, E>| #[trigger]
            decode.ensures((&received.data,), decoded) ==> decoded is Err,
        handles(outcome, received, decode),
    ensures
        outcome is Err,
        decode.ensures((&received.data,), Err(outcome->Err_0)),
{
}

/// A message from a peer is never passed on to peers: whatever becomes of it, the
/// node has nothing to send to anybody because of it, and tells nobody that a
/// peer has come or gone.
pub proof fn law_received_is_never_relayed<
    C: ChainTypes,
    E,
    D: FnOnce(&Vec<u8>) -> Result<PeerMessage<C>, E>,
>(decode: D, received: NetworkMessage, outcome: Result<Action<C>, E>)
    requires
        handles(outcome, received, decode),
    ensures
        outcome matches Ok(action) ==> !(action is BroadcastMessage) && !(
        action is BroadcastPeerEvent),
{
}

/// An event of the node only ever goes out to the peers: it adds nothing to the
/// pool, tells the bus nothing and answers nobody who waits.
pub proof fn law_local_event_only_goes_out<
    C: ChainTypes,
    F: FnOnce(&PeerMessage<C>) -> Vec<u8>,
>(encode: F, event: SystemEvents<C>, outcome: Option<Action<C>>)
    requires
        announces(outcome, event, encode),
    ensures
        outcome matches Some(action) ==> action is BroadcastMessage,
        outcome is Some <==> !(event is Other),
{
}

/// Nothing is lost on the way in: the action tells the message that led to it.
/// Where the node has to know who said it (news of the chain, and requests), the
/// action tells the peer as well.
pub proof fn law_reaction_keeps_the_message<C: ChainTypes>(
    peer_a: PeerId,
    msg_a: PeerMessage<C>,
    peer_b: PeerId,
    msg_b: PeerMessage<C>,
)
    requires
        reaction(peer_a, msg_a) == reaction(peer_b, msg_b),
    ensures
        msg_a == msg_b,
        msg_a is Block || msg_a is LatestStateMsg || msg_a is RPCRequest ==> peer_a == peer_b,
{
}

/// Only news is announced to everybody, never a state, a request or a response;
/// and different news differ in what is announced.
pub proof fn law_only_news_is_announced<C: ChainTypes>(a: SystemEvents<C>, b: SystemEvents<C>)
    ensures
        announcement(a) matches Some(msg) ==> msg is UserTransaction || msg is Block,
        announcement(a) == announcement(b) ==> a == b,
{
}

/// A response answers one request, the last that it was made the answer to, and
/// what it says does not depend on which.
pub proof fn law_last_request_id_counts<C: ChainTypes>(
    response: RPCResponse<C>,
    first: HashValue,
    last: HashValue,
)
    ensures
        response.answering(first).answering(last) == response.answering(last),
        response.answering(last).id == last,
        response.answering(last).body == response.body,
{
}

} // verus!
