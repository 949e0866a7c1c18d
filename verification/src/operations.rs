//! What the operations do, seen from outside.
//!
//! Each law here speaks of calls: it is given that an operation was called on some
//! arguments and returned some result, and says how the two, and the channel before
//! and after, are related. Several relate one call to another.

use vstd::prelude::*;

use crate::actor::{seed_list, Action, NetworkActor};
use crate::channel::Outbox;
use crate::message::{
    Broadcast, ChainTypes, DownloadMessage, HashValue, NetworkMessage, PeerInfo, PeerMessage,
    RPCRequest, RPCResponse, RpcRequestMessage, SyncMessage, SystemEvents,
};
use crate::service::{frame, settle, NetworkAsyncService, NetworkError};
use futures::channel::mpsc::UnboundedSender;
use libp2p::PeerId;

verus! {

/// Sending a message puts it on the channel once. On success the channel took one
/// message more than before, the last one, and it is an encoding of the message for
/// that peer. On failure the channel took nothing and refused one message, the one
/// that comes back.
pub proof fn law_message_is_sent_once<C: ChainTypes, F: FnOnce(&PeerMessage<C>) -> Vec<u8>>(
    service: &mut NetworkAsyncService,
    peer_id: PeerId,
    msg: PeerMessage<C>,
    encode: F,
    outcome: Result<(), NetworkError>,
)
    requires
        call_ensures(
            NetworkAsyncService::send_peer_message::<C, F>,
            (service, peer_id, msg, encode),
            outcome,
        ),
    ensures
        final(service).identity() == old(service).identity(),
        final(service).outbox().channel() == old(service).outbox().channel(),
        final(service).outbox().path() == old(service).outbox().path(),
        final(service).outbox().forks() == old(service).outbox().forks(),
        outcome is Ok ==> {
            let sent = final(service).outbox().sent();
            &&& sent.len() == old(service).outbox().sent().len() + 1
            &&& sent.drop_last() == old(service).outbox().sent()
            &&& sent.last().peer_id == peer_id
            &&& encode.ensures((&msg,), sent.last().data)
            &&& final(service).outbox().refused() == old(service).outbox().refused()
        },
        outcome matches Err(NetworkError::Disconnected(unsent)) ==> {
            let refused = final(service).outbox().refused();
            &&& refused.len() == old(service).outbox().refused().len() + 1
            &&& refused.drop_last() == old(service).outbox().refused()
            &&& refused.last() == unsent
            &&& unsent.peer_id == peer_id
            &&& encode.ensures((&msg,), unsent.data)
            &&& final(service).outbox().sent() == old(service).outbox().sent()
        },
{
}

/// Sending a request puts it on the channel once. On success the channel took one
/// message more than before, the last one; it is an encoding of the request for that
/// peer, and the name that comes back is the request's. On failure the channel took
/// nothing and refused one message, the one that comes back.
pub proof fn law_request_is_sent_once<C: ChainTypes, F: FnOnce(&PeerMessage<C>) -> Vec<u8>>(
    service: &mut NetworkAsyncService,
    peer_id: PeerId,
    request: RPCRequest<C>,
    encode: F,
    outcome: Result<HashValue, NetworkError>,
)
    requires
        call_ensures(
            NetworkAsyncService::send_request::<C, F>,
            (service, peer_id, request, encode),
            outcome,
        ),
    ensures
        final(service).identity() == old(service).identity(),
        final(service).outbox().channel() == old(service).outbox().channel(),
        final(service).outbox().path() == old(service).outbox().path(),
        final(service).outbox().forks() == old(service).outbox().forks(),
        outcome matches Ok(id) ==> {
            let sent = final(service).outbox().sent();
            &&& id == request.id
            &&& sent.len() == old(service).outbox().sent().len() + 1
            &&& sent.drop_last() == old(service).outbox().sent()
            &&& sent.last().peer_id == peer_id
            &&& encode.ensures((&PeerMessage::RPCRequest(request),), sent.last().data)
            &&& final(service).outbox().refused() == old(service).outbox().refused()
        },
        outcome matches Err(NetworkError::Disconnected(unsent)) ==> {
            let refused = final(service).outbox().refused();
            &&& refused.len() == old(service).outbox().refused().len() + 1
            &&& refused.drop_last() == old(service).outbox().refused()
            &&& refused.last() == unsent
            &&& unsent.peer_id == peer_id
            &&& encode.ensures((&PeerMessage::RPCRequest(request),), unsent.data)
            &&& final(service).outbox().sent() == old(service).outbox().sent()
        },
{
}

/// Answering puts the response on the channel once, under the name of the request
/// that it answers and with what it says unchanged. On failure the channel took
/// nothing and refused one message, the one that comes back.
pub proof fn law_response_is_sent_once<C: ChainTypes, F: FnOnce(&PeerMessage<C>) -> Vec<u8>>(
    service: &mut NetworkAsyncService,
    peer_id: PeerId,
    id: HashValue,
    response: RPCResponse<C>,
    encode: F,
    outcome: Result<(), NetworkError>,
)
    requires
        call_ensures(
            NetworkAsyncService::response_for::<C, F>,
            (service, peer_id, id, response, encode),
            outcome,
        ),
    ensures
        final(service).identity() == old(service).identity(),
        final(service).outbox().channel() == old(service).outbox().channel(),
        final(service).outbox().path() == old(service).outbox().path(),
        final(service).outbox().forks() == old(service).outbox().forks(),
        outcome is Ok ==> {
            let sent = final(service).outbox().sent();
            &&& sent.len() == old(service).outbox().sent().len() + 1
            &&& sent.drop_last() == old(service).outbox().sent()
            &&& sent.last().peer_id == peer_id
            &&& encode.ensures(
                (&PeerMessage::RPCResponse(RPCResponse { id, body: response.body }),),
                sent.last().data,
            )
            &&& final(service).outbox().refused() == old(service).outbox().refused()
        },
        outcome matches Err(NetworkError::Disconnected(unsent)) ==> {
            let refused = final(service).outbox().refused();
            &&& refused.len() == old(service).outbox().refused().len() + 1
            &&& refused.drop_last() == old(service).outbox().refused()
            &&& refused.last() == unsent
            &&& unsent.peer_id == peer_id
            &&& encode.ensures(
                (&PeerMessage::RPCResponse(RPCResponse { id, body: response.body }),),
                unsent.data,
            )
            &&& final(service).outbox().sent() == old(service).outbox().sent()
        },
{
}

/// Two requests in a row are two messages, in that order, behind all that was sent
/// before, even where the requests are equal. A request that fails takes no place.
pub proof fn law_requests_go_out_in_order<
    C: ChainTypes,
    F: FnOnce(&PeerMessage<C>) -> Vec<u8>,
    G: FnOnce(&PeerMessage<C>) -> Vec<u8>,
>(
    first_call: &mut NetworkAsyncService,
    first_peer: PeerId,
    first_request: RPCRequest<C>,
    first_encode: F,
    first: Result<HashValue, NetworkError>,
    second_call: &mut NetworkAsyncService,
    second_peer: PeerId,
    second_request: RPCRequest<C>,
    second_encode: G,
    second: Result<HashValue, NetworkError>,
)
    requires
        call_ensures(
            NetworkAsyncService::send_request::<C, F>,
            (first_call, first_peer, first_request, first_encode),
            first,
        ),
        *old(second_call) == *final(first_call),
        call_ensures(
            NetworkAsyncService::send_request::<C, G>,
            (second_call, second_peer, second_request, second_encode),
            second,
        ),
    ensures
        ({
            let before = old(first_call).outbox().sent();
            let after = final(second_call).outbox().sent();
            let taken: int = (if first is Ok { 1int } else { 0int }) + (if second is Ok {
                1int
            } else {
                0int
            });
            &&& after.len() == before.len() + taken
            &&& after.take(before.len() as int) == before
            &&& first is Ok ==> after[before.len() as int].peer_id == first_peer
                && first_encode.ensures(
                (&PeerMessage::RPCRequest(first_request),),
                after[before.len() as int].data,
            )
            &&& second is Ok ==> after.last().peer_id == second_peer && second_encode.ensures(
                (&PeerMessage::RPCRequest(second_request),),
                after.last().data,
            )
        }),
{
    law_request_is_sent_once(first_call, first_peer, first_request, first_encode, first);
    law_request_is_sent_once(second_call, second_peer, second_request, second_encode, second);
    let before = old(first_call).outbox().sent();
    let between = final(first_call).outbox().sent();
    let after = final(second_call).outbox().sent();
    if second is Ok {
        assert(after == between.push(after.last()));
    }
    if first is Ok {
        assert(between == before.push(between.last()));
    }
}

/// The name under which a request is pending is the one that whoever gets the request
/// reads from it.
pub proof fn law_request_is_known_by_its_name<
    C: ChainTypes,
    F: FnOnce(&PeerMessage<C>) -> Vec<u8>,
>(
    service: &mut NetworkAsyncService,
    peer_id: PeerId,
    request: RPCRequest<C>,
    encode: F,
    pending: HashValue,
    name: HashValue,
)
    requires
        call_ensures(
            NetworkAsyncService::send_request::<C, F>,
            (service, peer_id, request, encode),
            Ok(pending),
        ),
        call_ensures(RPCRequest::<C>::get_id, (&request,), name),
    ensures
        pending == name,
{
}

/// A response that was made the answer to a request bears the request's name and
/// says what it said before.
pub proof fn law_response_takes_the_name<C: ChainTypes>(
    response: &mut RPCResponse<C>,
    id: HashValue,
    name: HashValue,
)
    requires
        call_ensures(RPCResponse::<C>::set_request_id, (response, id), ()),
        call_ensures(RPCResponse::<C>::get_id, (&*final(response),), name),
    ensures
        name == id,
        final(response).body == old(response).body,
{
}

/// Passing on an event succeeds, and passes on that event.
pub proof fn law_event_is_passed_on<C: ChainTypes, R, D: FnOnce(SystemEvents<C>) -> R>(
    service: NetworkAsyncService,
    event: SystemEvents<C>,
    deliver: D,
    outcome: Result<R, NetworkError>,
)
    requires
        call_ensures(
            NetworkAsyncService::broadcast_system_event::<C, R, D>,
            (&service, event, deliver),
            outcome,
        ),
    ensures
        outcome is Ok,
        deliver.ensures((event,), outcome->Ok_0),
{
}

/// A fork speaks for the same node by the same channel, and neither making it nor
/// having made it puts anything on the channel.
pub proof fn law_fork_speaks_for_the_node(
    service: &mut NetworkAsyncService,
    fork: NetworkAsyncService,
)
    requires
        call_ensures(NetworkAsyncService::fork, (service,), fork),
    ensures
        fork.identity() == old(service).identity(),
        final(service).identity() == old(service).identity(),
        fork.outbox().channel() == old(service).outbox().channel(),
        final(service).outbox().channel() == old(service).outbox().channel(),
        fork.outbox().sent() == old(service).outbox().sent(),
        final(service).outbox().sent() == old(service).outbox().sent(),
        fork.outbox().refused() == old(service).outbox().refused(),
        final(service).outbox().refused() == old(service).outbox().refused(),
        fork.outbox().path() == old(service).outbox().path().push(old(service).outbox().forks()),
        final(service).outbox().path() == old(service).outbox().path(),
        fork.outbox().forks() == 0,
        final(service).outbox().forks() == old(service).outbox().forks() + 1,
{
}

/// A launched node goes by the identity that the network gave it. Its two sides have
/// a handle each on the node's channel to the wire, there is no third one, and
/// nothing was offered to the channel.
pub proof fn law_launched_node_is_silent(
    identity: PeerId,
    tx: UnboundedSender<NetworkMessage>,
    tx_command: UnboundedSender<()>,
    actor: NetworkActor,
    service: NetworkAsyncService,
    name: PeerId,
)
    requires
        call_ensures(NetworkActor::launch, (&identity, tx, tx_command), (actor, service)),
        call_ensures(NetworkAsyncService::identify, (&service,), &name),
    ensures
        name == identity,
        actor.commands() == tx_command,
        service.outbox().channel() == tx,
        service.outbox().sent().len() == 0,
        service.outbox().refused().len() == 0,
        service.outbox().path().len() == 0,
        service.outbox().forks() == 1,
        actor.outbox().channel() == tx,
        actor.outbox().sent().len() == 0,
        actor.outbox().refused().len() == 0,
        actor.outbox().path() == seq![0nat],
        actor.outbox().forks() == 0,
{
}

/// A node that has sent a message still gives the identity that it gave before.
pub proof fn law_identity_outlasts_a_send<C: ChainTypes, F: FnOnce(&PeerMessage<C>) -> Vec<u8>>(
    service: &mut NetworkAsyncService,
    peer_id: PeerId,
    msg: PeerMessage<C>,
    encode: F,
    outcome: Result<(), NetworkError>,
    name_before: PeerId,
    name_after: PeerId,
)
    requires
        call_ensures(NetworkAsyncService::identify, (&*old(service),), &name_before),
        call_ensures(
            NetworkAsyncService::send_peer_message::<C, F>,
            (service, peer_id, msg, encode),
            outcome,
        ),
        call_ensures(NetworkAsyncService::identify, (&*final(service),), &name_after),
    ensures
        name_before == name_after,
{
}

/// A new service sends by the handle that it was given, and goes by the identity
/// that it was given.
pub proof fn law_new_service_is_as_given(
    tx: Outbox,
    peer_id: PeerId,
    service: NetworkAsyncService,
    name: PeerId,
)
    requires
        call_ensures(NetworkAsyncService::new, (tx, peer_id), service),
        call_ensures(NetworkAsyncService::identify, (&service,), &name),
    ensures
        service.outbox() == tx,
        name == peer_id,
{
}

/// The first handle on a channel has an empty log.
pub proof fn law_first_handle_is_unused(sender: UnboundedSender<NetworkMessage>, outbox: Outbox)
    requires
        call_ensures(Outbox::new, (sender,), outbox),
    ensures
        outbox.channel() == sender,
        outbox.sent().len() == 0,
        outbox.refused().len() == 0,
        outbox.path().len() == 0,
        outbox.forks() == 0,
{
}

/// A frame holds the peer and the bytes that it was made of.
pub proof fn law_frame_holds_what_it_was_made_of(
    peer_id: PeerId,
    data: Vec<u8>,
    framed: NetworkMessage,
)
    requires
        call_ensures(frame, (peer_id, data), framed),
    ensures
        framed.peer_id == peer_id,
        framed.data == data,
{
}

/// The caller is told of a success if and only if the channel took the message, and
/// otherwise gets back the message that the channel gave back.
pub proof fn law_caller_is_told_what_happened(
    outcome: Result<(), NetworkMessage>,
    told: Result<(), NetworkError>,
)
    requires
        call_ensures(settle, (outcome,), told),
    ensures
        told is Ok <==> outcome is Ok,
        told matches Err(NetworkError::Disconnected(unsent)) ==> unsent == outcome->Err_0,
{
}

/// A transaction of a peer goes to the pool, whichever peer it is from.
pub proof fn law_transaction_goes_to_the_pool<C: ChainTypes>(
    peer_id: PeerId,
    txn: C::Transaction,
    action: Action<C>,
)
    requires
        call_ensures(
            NetworkActor::handle_network_message::<C>,
            (peer_id, PeerMessage::UserTransaction(txn)),
            action,
        ),
    ensures
        action == Action::<C>::AddTransaction(txn),
{
}

/// A block of a peer goes to the bus as a new head block, with the peer.
pub proof fn law_block_goes_to_the_bus<C: ChainTypes>(
    peer_id: PeerId,
    block: C::Block,
    action: Action<C>,
)
    requires
        call_ensures(
            NetworkActor::handle_network_message::<C>,
            (peer_id, PeerMessage::Block(block)),
            action,
        ),
    ensures
        action matches Action::BroadcastSync(
            Broadcast {
                msg: SyncMessage::DownloadMessage(DownloadMessage::NewHeadBlock(info, news)),
            },
        ) && info.peer_id == peer_id && news == block,
{
}

/// The latest state of a peer goes to the bus, with the peer.
pub proof fn law_state_goes_to_the_bus<C: ChainTypes>(
    peer_id: PeerId,
    state: C::State,
    action: Action<C>,
)
    requires
        call_ensures(
            NetworkActor::handle_network_message::<C>,
            (peer_id, PeerMessage::LatestStateMsg(state)),
            action,
        ),
    ensures
        action matches Action::BroadcastSync(
            Broadcast {
                msg: SyncMessage::DownloadMessage(DownloadMessage::LatestStateMsg(info, news)),
            },
        ) && info.peer_id == peer_id && news == state,
{
}

/// A request of a peer goes to the bus, with the peer that awaits the answer.
pub proof fn law_request_goes_to_the_bus<C: ChainTypes>(
    peer_id: PeerId,
    request: RPCRequest<C>,
    action: Action<C>,
)
    requires
        call_ensures(
            NetworkActor::handle_network_message::<C>,
            (peer_id, PeerMessage::RPCRequest(request)),
            action,
        ),
    ensures
        action matches Action::BroadcastRpcRequest(Broadcast { msg: question })
            && question.peer_id == peer_id && question.request == request,
{
}

/// A response of a peer goes, unchanged, to whoever waits under the name that the
/// response bears.
pub proof fn law_response_goes_to_the_one_who_waits<C: ChainTypes>(
    peer_id: PeerId,
    response: RPCResponse<C>,
    name: HashValue,
    action: Action<C>,
)
    requires
        call_ensures(RPCResponse::<C>::get_id, (&response,), name),
        call_ensures(
            NetworkActor::handle_network_message::<C>,
            (peer_id, PeerMessage::RPCResponse(response)),
            action,
        ),
    ensures
        name == response.id,
        action matches Action::SendResponse { id, response: answer } && id == name
            && answer == response,
{
}

/// A message that was decoded is handled as that message from that peer, and one
/// that was not is reported with the reason.
pub proof fn law_decoded_message_is_handled<C: ChainTypes, E>(
    peer_id: PeerId,
    msg: PeerMessage<C>,
    action: Action<C>,
    handled: Result<Action<C>, E>,
    error: E,
    dropped: Result<Action<C>, E>,
)
    requires
        call_ensures(NetworkActor::handle_network_message::<C>, (peer_id, msg), action),
        call_ensures(
            NetworkActor::handle_decoded::<C, E>,
            (peer_id, Ok::<PeerMessage<C>, E>(msg)),
            handled,
        ),
        call_ensures(
            NetworkActor::handle_decoded::<C, E>,
            (peer_id, Err::<PeerMessage<C>, E>(error)),
            dropped,
        ),
    ensures
        handled == Ok::<Action<C>, E>(action),
        dropped == Err::<Action<C>, E>(error),
{
}

/// A message from the wire is handled as what its bytes say, said by the peer that
/// it is from.
pub proof fn law_readable_message_is_handled<
    C: ChainTypes,
    E,
    D: FnOnce(&Vec<u8>) -> Result<PeerMessage<C>, E>,
>(
    network_msg: NetworkMessage,
    decode: D,
    msg: PeerMessage<C>,
    action: Action<C>,
    outcome: Result<Action<C>, E>,
)
    requires
        forall|decoded: Result<PeerMessage<C>, E>| #[trigger]
            decode.ensures((&network_msg.data,), decoded) ==> decoded == Ok::<
                PeerMessage<C>,
                E,
            >(msg),
        call_ensures(NetworkActor::handle_network_message::<C>, (network_msg.peer_id, msg), action),
        call_ensures(NetworkActor::handle_message::<C, E, D>, (network_msg, decode), outcome),
    ensures
        outcome == Ok::<Action<C>, E>(action),
{
}

/// A message from the wire whose bytes say nothing leads to no action, and the
/// reason is reported.
pub proof fn law_unreadable_message_is_reported<
    C: ChainTypes,
    E,
    D: FnOnce(&Vec<u8>) -> Result<PeerMessage<C>, E>,
>(network_msg: NetworkMessage, decode: D, error: E, outcome: Result<Action<C>, E>)
    requires
        forall|decoded: Result<PeerMessage<C>, E>| #[trigger]
            decode.ensures((&network_msg.data,), decoded) ==> decoded == Err::<
                PeerMessage<C>,
                E,
            >(error),
        call_ensures(NetworkActor::handle_message::<C, E, D>, (network_msg, decode), outcome),
    ensures
        outcome == Err::<Action<C>, E>(error),
{
}

/// The coming or going of a peer goes to the bus as it is.
pub proof fn law_peer_event_goes_to_the_bus<C: ChainTypes>(
    event: C::PeerEvent,
    action: Action<C>,
)
    requires
        call_ensures(NetworkActor::handle_peer_event::<C>, (event,), action),
    ensures
        action matches Action::BroadcastPeerEvent(Broadcast { msg }) && msg == event,
{
}

/// A new transaction of the node is announced as that transaction.
pub proof fn law_new_transaction_is_announced<C: ChainTypes>(
    txn: C::Transaction,
    told: Option<PeerMessage<C>>,
)
    requires
        call_ensures(
            NetworkActor::announce::<C>,
            (SystemEvents::NewUserTransaction(txn),),
            told,
        ),
    ensures
        told matches Some(PeerMessage::UserTransaction(news)) && news == txn,
{
}

/// A new head block of the node is announced as that block.
pub proof fn law_new_block_is_announced<C: ChainTypes>(
    block: C::Block,
    told: Option<PeerMessage<C>>,
)
    requires
        call_ensures(NetworkActor::announce::<C>, (SystemEvents::NewHeadBlock(block),), told),
    ensures
        told matches Some(PeerMessage::Block(news)) && news == block,
{
}

/// Any other event of the node is not announced, and nothing is to be done about it.
pub proof fn law_other_events_are_kept<C: ChainTypes, F: FnOnce(&PeerMessage<C>) -> Vec<u8>>(
    encode: F,
    told: Option<PeerMessage<C>>,
    outcome: Option<Action<C>>,
)
    requires
        call_ensures(NetworkActor::announce::<C>, (SystemEvents::<C>::Other,), told),
        call_ensures(
            NetworkActor::handle_system_event::<C, F>,
            (SystemEvents::<C>::Other, encode),
            outcome,
        ),
    ensures
        told is None,
        outcome is None,
{
}

/// What is announced of an event goes to all peers, encoded, and nothing else is to
/// be done about the event.
pub proof fn law_announcement_goes_to_all_peers<
    C: ChainTypes,
    F: FnOnce(&PeerMessage<C>) -> Vec<u8>,
>(
    event: SystemEvents<C>,
    encode: F,
    told: Option<PeerMessage<C>>,
    outcome: Option<Action<C>>,
)
    requires
        call_ensures(NetworkActor::announce::<C>, (event,), told),
        call_ensures(NetworkActor::handle_system_event::<C, F>, (event, encode), outcome),
    ensures
        told is None <==> outcome is None,
        told matches Some(msg) ==> (outcome matches Some(Action::BroadcastMessage(bytes))
            && encode.ensures((&msg,), bytes)),
{
}

/// A peer is described by its identity.
pub proof fn law_peer_info_names_the_peer(peer_id: PeerId, info: PeerInfo)
    requires
        call_ensures(PeerInfo::new, (peer_id,), info),
    ensures
        info.peer_id == peer_id,
{
}

/// The list of no seeds is empty, and the list of one seed is that seed.
pub proof fn law_short_seed_lists(
    none: Vec<String>,
    empty: String,
    one: Vec<String>,
    single: String,
)
    requires
        none@.len() == 0,
        call_ensures(seed_list, (&none,), empty),
        one@.len() == 1,
        call_ensures(seed_list, (&one,), single),
    ensures
        empty@.len() == 0,
        single@ == one@[0]@,
{
    let texts = one@.map_values(|seed: String| seed@);
    texts.lemma_flatten_one_element();
    assert(none@.map_values(|seed: String| seed@).len() == 0);
}

/// The list of some seeds followed by others is the list of the ones followed by the
/// list of the others.
pub proof fn law_seed_lists_join(
    left: Vec<String>,
    left_list: String,
    right: Vec<String>,
    right_list: String,
    both: Vec<String>,
    both_list: String,
)
    requires
        both@ == left@ + right@,
        call_ensures(seed_list, (&left,), left_list),
        call_ensures(seed_list, (&right,), right_list),
        call_ensures(seed_list, (&both,), both_list),
    ensures
        both_list@ == left_list@ + right_list@,
{
    let l = left@.map_values(|seed: String| seed@);
    let r = right@.map_values(|seed: String| seed@);
    assert(both@.map_values(|seed: String| seed@) == l + r);
    vstd::seq_lib::lemma_flatten_concat(l, r);
}

/// A question and its answer, call by call. The asker sends a request; the responder
/// gets its bytes and is to tell its bus; whoever answers there takes the request's
/// name from the request and answers the peer that asked; the asker gets the bytes of
/// the answer and is to hand it to the one who waits under the name that the asker's
/// own call had returned. What the answer says arrives unchanged.
pub proof fn law_question_and_answer<
    C: ChainTypes,
    E,
    F: FnOnce(&PeerMessage<C>) -> Vec<u8>,
    D: FnOnce(&Vec<u8>) -> Result<PeerMessage<C>, E>,
>(
    encode: F,
    decode: D,
    asker: &mut NetworkAsyncService,
    asker_id: PeerId,
    responder: &mut NetworkAsyncService,
    responder_id: PeerId,
    request: RPCRequest<C>,
    pending: HashValue,
    question_in: NetworkMessage,
    question: Result<Action<C>, E>,
    asked: RpcRequestMessage<C>,
    name: HashValue,
    response: RPCResponse<C>,
    answer_in: NetworkMessage,
    answer: Result<Action<C>, E>,
)
    requires
        forall|msg: PeerMessage<C>, written: Vec<u8>, read: Vec<u8>, decoded: Result<
            PeerMessage<C>,
            E,
        >|
            #![trigger encode.ensures((&msg,), written), decode.ensures((&read,), decoded)]
            encode.ensures((&msg,), written) && read@ == written@ && decode.ensures(
                (&read,),
                decoded,
            ) ==> decoded == Ok::<PeerMessage<C>, E>(msg),
        call_ensures(
            NetworkAsyncService::send_request::<C, F>,
            (asker, responder_id, request, encode),
            Ok(pending),
        ),
        question_in.peer_id == asker_id,
        question_in.data@ == final(asker).outbox().sent().last().data@,
        call_ensures(NetworkActor::handle_message::<C, E, D>, (question_in, decode), question),
        question == Ok::<Action<C>, E>(Action::BroadcastRpcRequest(Broadcast { msg: asked })),
        call_ensures(RPCRequest::<C>::get_id, (&asked.request,), name),
        call_ensures(
            NetworkAsyncService::response_for::<C, F>,
            (responder, asked.peer_id, name, response, encode),
            Ok(()),
        ),
        answer_in.peer_id == responder_id,
        answer_in.data@ == final(responder).outbox().sent().last().data@,
        call_ensures(NetworkActor::handle_message::<C, E, D>, (answer_in, decode), answer),
    ensures
        final(asker).outbox().sent().len() == old(asker).outbox().sent().len() + 1,
        final(asker).outbox().sent().last().peer_id == responder_id,
        asked.peer_id == asker_id,
        asked.request == request,
        final(responder).outbox().sent().len() == old(responder).outbox().sent().len() + 1,
        final(responder).outbox().sent().last().peer_id == asker_id,
        answer matches Ok(Action::SendResponse { id, response: said }) && id == pending && said.id
            == pending && said.body == response.body,
{
    law_request_is_sent_once(asker, responder_id, request, encode, Ok(pending));
    law_response_is_sent_once(responder, asked.peer_id, name, response, encode, Ok(()));
}

} // verus!
