use futures::channel::mpsc::{unbounded, TryRecvError, UnboundedReceiver};
use futures::executor::block_on;
use futures::stream::StreamExt;
use libp2p::PeerId;
use network::actor::{seed_list, Action, NetworkActor};
use network::message::{
    Broadcast, ChainTypes, DownloadMessage, HashValue, NetworkMessage, PeerInfo, PeerMessage,
    RPCRequest, RPCResponse, RpcRequestMessage, SyncMessage, SystemEvents,
};
use network::service::{frame, settle, NetworkAsyncService, NetworkError};

#[derive(Debug, PartialEq, Eq)]
struct TestChain;

impl ChainTypes for TestChain {
    type Transaction = u8;
    type Block = u16;
    type State = bool;
    type RequestBody = [u8; 2];
    type ResponseBody = u8;
    type PeerEvent = &'static str;
}

type Message = PeerMessage<TestChain>;

fn hash(seed: u8) -> HashValue {
    HashValue { bytes: [seed; 32] }
}

fn encode(msg: &Message) -> Vec<u8> {
    match msg {
        PeerMessage::UserTransaction(txn) => vec![0, *txn],
        PeerMessage::Block(block) => {
            let bytes = block.to_be_bytes();
            vec![1, bytes[0], bytes[1]]
        }
        PeerMessage::LatestStateMsg(state) => vec![2, if *state { 1 } else { 0 }],
        PeerMessage::RPCRequest(request) => {
            let mut data = vec![3];
            data.extend_from_slice(&request.id.bytes);
            data.extend_from_slice(&request.body);
            data
        }
        PeerMessage::RPCResponse(response) => {
            let mut data = vec![4];
            data.extend_from_slice(&response.id.bytes);
            data.push(response.body);
            data
        }
    }
}

fn id_of(data: &[u8]) -> HashValue {
    let mut bytes = [0u8; 32];
    bytes.copy_from_slice(data);
    HashValue { bytes }
}

fn decode(data: &Vec<u8>) -> Result<Message, String> {
    match (data.first(), data.len()) {
        (Some(0), 2) => Ok(PeerMessage::UserTransaction(data[1])),
        (Some(1), 3) => Ok(PeerMessage::Block(u16::from_be_bytes([data[1], data[2]]))),
        (Some(2), 2) => Ok(PeerMessage::LatestStateMsg(data[1] == 1)),
        (Some(3), 35) => Ok(PeerMessage::RPCRequest(RPCRequest {
            id: id_of(&data[1..33]),
            body: [data[33], data[34]],
        })),
        (Some(4), 34) => Ok(PeerMessage::RPCResponse(RPCResponse {
            id: id_of(&data[1..33]),
            body: data[33],
        })),
        _ => Err(format!("{} unreadable bytes", data.len())),
    }
}

struct Node {
    id: PeerId,
    actor: NetworkActor,
    service: NetworkAsyncService,
    wire: UnboundedReceiver<NetworkMessage>,
    commands: UnboundedReceiver<()>,
}

fn node() -> Node {
    let id = PeerId::random();
    let (tx, wire) = unbounded();
    let (tx_command, commands) = unbounded();
    let (actor, service) = NetworkActor::launch(&id, tx, tx_command);
    Node { id, actor, service, wire, commands }
}

impl Node {
    /// The next message that this node has put on the wire.
    fn sent(&mut self) -> NetworkMessage {
        block_on(self.wire.next()).unwrap()
    }
}

/// What a node does about `data` that comes in from `source`.
fn receive(source: PeerId, data: Vec<u8>) -> Result<Action<TestChain>, String> {
    NetworkActor::handle_message(NetworkMessage { peer_id: source, data }, decode)
}

/// The bytes that all peers get when `event` happens.
fn announced(event: SystemEvents<TestChain>) -> Vec<u8> {
    match NetworkActor::handle_system_event(event, encode) {
        Some(Action::BroadcastMessage(bytes)) => bytes,
        other => panic!("{:?}", other),
    }
}

#[test]
fn test_network_with_mock() {
    let mut node1 = node();
    let mut node2 = node();

    // Each node tells the other of a transaction.
    let bytes = announced(SystemEvents::NewUserTransaction(11));
    assert_eq!(receive(node1.id, bytes), Ok(Action::AddTransaction(11)));
    let bytes = announced(SystemEvents::NewUserTransaction(22));
    assert_eq!(receive(node2.id, bytes), Ok(Action::AddTransaction(22)));

    // The first node asks the second.
    let request = RPCRequest::<TestChain> { id: hash(7), body: [1, 2] };
    let peer = *node2.service.identify();
    let pending = node1.service.send_request(peer, request, encode).unwrap();
    assert_eq!(pending, hash(7));
    let wire = node1.sent();
    assert_eq!(wire.peer_id, node2.id);

    // The second node answers what it was asked.
    let question = match receive(node1.id, wire.data) {
        Ok(Action::BroadcastRpcRequest(broadcast)) => broadcast.msg,
        other => panic!("{:?}", other),
    };
    assert_eq!(
        question,
        RpcRequestMessage { peer_id: node1.id, request: RPCRequest { id: hash(7), body: [1, 2] } }
    );
    let id = question.request.get_id();
    let response = RPCResponse::<TestChain> { id, body: 1 };
    assert_eq!(node2.service.response_for(question.peer_id, id, response, encode), Ok(()));

    // The answer is for whoever waits for it at the first node.
    let wire = node2.sent();
    assert_eq!(wire.peer_id, node1.id);
    assert_eq!(
        receive(node2.id, wire.data),
        Ok(Action::SendResponse {
            id: pending,
            response: RPCResponse { id: hash(7), body: 1 },
        })
    );
}

#[test]
fn peer_message_goes_out_framed() {
    let mut node = node();
    let peer = PeerId::random();
    assert_eq!(node.service.send_peer_message(peer, Message::Block(0x0102), encode), Ok(()));
    assert_eq!(node.service.send_peer_message(peer, Message::LatestStateMsg(true), encode), Ok(()));
    assert_eq!(node.sent(), NetworkMessage { peer_id: peer, data: vec![1, 1, 2] });
    assert_eq!(node.sent(), NetworkMessage { peer_id: peer, data: vec![2, 1] });
}

#[test]
fn unsent_message_comes_back() {
    let Node { mut service, wire, .. } = node();
    let peer = PeerId::random();
    drop(wire);
    let error = service.send_peer_message(peer, Message::UserTransaction(9), encode).err();
    assert_eq!(
        error,
        Some(NetworkError::Disconnected(NetworkMessage { peer_id: peer, data: vec![0, 9] }))
    );
}

#[test]
fn unsent_request_is_not_pending() {
    let Node { mut service, wire, .. } = node();
    let peer = PeerId::random();
    drop(wire);
    let request = RPCRequest::<TestChain> { id: hash(3), body: [4, 5] };
    let mut data = vec![3];
    data.extend_from_slice(&[3; 32]);
    data.extend_from_slice(&[4, 5]);
    let error = service.send_request(peer, request, encode).err();
    assert_eq!(error, Some(NetworkError::Disconnected(NetworkMessage { peer_id: peer, data })));
}

#[test]
fn response_names_the_request() {
    let mut node = node();
    let peer = PeerId::random();
    let response = RPCResponse::<TestChain> { id: hash(0), body: 8 };
    assert_eq!(node.service.response_for(peer, hash(6), response, encode), Ok(()));
    let mut data = vec![4];
    data.extend_from_slice(&[6; 32]);
    data.push(8);
    assert_eq!(node.sent(), NetworkMessage { peer_id: peer, data });
}

#[test]
fn unsent_response_comes_back_with_the_request_id() {
    let Node { mut service, wire, .. } = node();
    let peer = PeerId::random();
    drop(wire);
    let response = RPCResponse::<TestChain> { id: hash(0), body: 8 };
    let mut data = vec![4];
    data.extend_from_slice(&[6; 32]);
    data.push(8);
    let error = service.response_for(peer, hash(6), response, encode).err();
    assert_eq!(error, Some(NetworkError::Disconnected(NetworkMessage { peer_id: peer, data })));
}

#[test]
fn frame_holds_peer_and_bytes() {
    let peer_id = PeerId::random();
    assert_eq!(frame(peer_id, vec![1, 2]), NetworkMessage { peer_id, data: vec![1, 2] });
}

#[test]
fn settle_reports_what_the_channel_answers() {
    let peer_id = PeerId::random();
    assert_eq!(settle(Ok(())), Ok(()));
    assert_eq!(
        settle(Err(frame(peer_id, vec![1]))),
        Err(NetworkError::Disconnected(NetworkMessage { peer_id, data: vec![1] }))
    );
}

#[test]
fn system_event_puts_nothing_on_the_wire() {
    let mut node = node();
    let event = SystemEvents::<TestChain>::NewHeadBlock(6);
    assert!(node.service.broadcast_system_event(event, |_| ()).is_ok());
    assert_eq!(node.wire.try_recv(), Err(TryRecvError::Empty));
}

#[test]
fn sends_keep_their_order_and_their_number() {
    let mut node = node();
    let peer = PeerId::random();
    let mut fork = node.service.fork();
    assert_eq!(node.service.send_peer_message(peer, Message::UserTransaction(1), encode), Ok(()));
    assert_eq!(fork.send_peer_message(peer, Message::UserTransaction(1), encode), Ok(()));
    assert_eq!(node.service.send_peer_message(peer, Message::UserTransaction(2), encode), Ok(()));
    assert_eq!(node.sent().data, vec![0, 1]);
    assert_eq!(node.sent().data, vec![0, 1]);
    assert_eq!(node.sent().data, vec![0, 2]);
    assert_eq!(node.wire.try_recv(), Err(TryRecvError::Empty));
}

#[test]
fn request_goes_out_as_a_message() {
    let mut node = node();
    let peer = PeerId::random();
    let request = RPCRequest::<TestChain> { id: hash(3), body: [4, 5] };
    assert_eq!(node.service.send_request(peer, request, encode), Ok(hash(3)));
    let request = RPCRequest { id: hash(3), body: [4, 5] };
    assert_eq!(node.service.send_peer_message(peer, Message::RPCRequest(request), encode), Ok(()));
    let first = node.sent();
    assert_eq!(first, node.sent());
}

#[test]
fn earlier_request_id_has_no_influence() {
    let mut node = node();
    let peer = PeerId::random();
    let response = RPCResponse::<TestChain> { id: hash(1), body: 8 };
    assert_eq!(node.service.response_for(peer, hash(6), response, encode), Ok(()));
    let response = RPCResponse::<TestChain> { id: hash(2), body: 8 };
    assert_eq!(node.service.response_for(peer, hash(6), response, encode), Ok(()));
    let response = RPCResponse { id: hash(6), body: 8 };
    assert_eq!(node.service.send_peer_message(peer, Message::RPCResponse(response), encode), Ok(()));
    let first = node.sent();
    assert_eq!(first, node.sent());
    assert_eq!(first, node.sent());
}

#[test]
fn system_event_is_passed_on_whatever_comes_of_it() {
    let node = node();
    let event = SystemEvents::<TestChain>::NewHeadBlock(6);
    assert_eq!(
        node.service.broadcast_system_event(event, |event| event),
        Ok(SystemEvents::NewHeadBlock(6))
    );
    let event = SystemEvents::<TestChain>::Other;
    let delivery: Result<Result<(), &str>, NetworkError> =
        node.service.broadcast_system_event(event, |_| Err("mailbox closed"));
    assert_eq!(delivery, Ok(Err("mailbox closed")));
}

#[test]
fn launched_service_is_the_launched_node() {
    let node = node();
    assert_eq!(*node.service.identify(), node.id);
}

#[test]
fn fork_speaks_for_the_same_node() {
    let mut node = node();
    let peer = PeerId::random();
    let mut fork = node.service.fork();
    assert_eq!(fork.identify(), node.service.identify());
    assert_eq!(fork.send_peer_message(peer, Message::UserTransaction(5), encode), Ok(()));
    assert_eq!(node.sent(), NetworkMessage { peer_id: peer, data: vec![0, 5] });
}

#[test]
fn actor_keeps_both_channels_open() {
    let Node { actor, service, mut wire, mut commands, .. } = node();
    drop(service);
    assert_eq!(wire.try_recv(), Err(TryRecvError::Empty));
    assert_eq!(commands.try_recv(), Err(TryRecvError::Empty));
    drop(actor);
    assert_eq!(wire.try_recv(), Err(TryRecvError::Closed));
    assert_eq!(commands.try_recv(), Err(TryRecvError::Closed));
}

#[test]
fn transaction_goes_to_the_pool() {
    let action =
        NetworkActor::handle_network_message(PeerId::random(), Message::UserTransaction(4));
    assert_eq!(action, Action::AddTransaction(4));
}

#[test]
fn block_goes_to_the_bus() {
    let peer_id = PeerId::random();
    let action = NetworkActor::handle_network_message(peer_id, Message::Block(512));
    assert_eq!(
        action,
        Action::BroadcastSync(Broadcast {
            msg: SyncMessage::DownloadMessage(DownloadMessage::NewHeadBlock(
                PeerInfo { peer_id },
                512
            ))
        })
    );
}

#[test]
fn latest_state_goes_to_the_bus() {
    let peer_id = PeerId::random();
    let action = NetworkActor::handle_network_message(peer_id, Message::LatestStateMsg(true));
    assert_eq!(
        action,
        Action::BroadcastSync(Broadcast {
            msg: SyncMessage::DownloadMessage(DownloadMessage::LatestStateMsg(
                PeerInfo::new(peer_id),
                true
            ))
        })
    );
}

#[test]
fn request_goes_to_the_bus_with_the_asking_peer() {
    let peer_id = PeerId::random();
    let request = RPCRequest { id: hash(1), body: [2, 3] };
    let action = NetworkActor::handle_network_message(peer_id, Message::RPCRequest(request));
    assert_eq!(
        action,
        Action::BroadcastRpcRequest(Broadcast {
            msg: RpcRequestMessage { peer_id, request: RPCRequest { id: hash(1), body: [2, 3] } }
        })
    );
}

#[test]
fn response_goes_to_the_one_who_waits() {
    let response = RPCResponse { id: hash(9), body: 2 };
    let action =
        NetworkActor::handle_network_message(PeerId::random(), Message::RPCResponse(response));
    assert_eq!(
        action,
        Action::SendResponse { id: hash(9), response: RPCResponse { id: hash(9), body: 2 } }
    );
}

#[test]
fn unreadable_message_leads_to_no_action() {
    assert_eq!(
        receive(PeerId::random(), vec![9, 9, 9]),
        Err(String::from("3 unreadable bytes"))
    );
    assert_eq!(
        NetworkActor::handle_decoded::<TestChain, u8>(PeerId::random(), Err(5)),
        Err(5)
    );
}

#[test]
fn decoded_message_is_handled() {
    let decoded: Result<Message, u8> = Ok(PeerMessage::UserTransaction(1));
    assert_eq!(
        NetworkActor::handle_decoded(PeerId::random(), decoded),
        Ok(Action::AddTransaction(1))
    );
}

#[test]
fn peer_event_goes_to_the_bus() {
    assert_eq!(
        NetworkActor::handle_peer_event::<TestChain>("opened"),
        Action::BroadcastPeerEvent(Broadcast { msg: "opened" })
    );
}

#[test]
fn only_news_is_announced() {
    assert_eq!(
        NetworkActor::announce::<TestChain>(SystemEvents::NewUserTransaction(1)),
        Some(PeerMessage::UserTransaction(1))
    );
    assert_eq!(
        NetworkActor::announce::<TestChain>(SystemEvents::NewHeadBlock(2)),
        Some(PeerMessage::Block(2))
    );
    assert_eq!(NetworkActor::announce::<TestChain>(SystemEvents::Other), None);
}

#[test]
fn announcement_is_encoded() {
    assert_eq!(
        NetworkActor::handle_system_event::<TestChain, _>(
            SystemEvents::NewUserTransaction(3),
            encode
        ),
        Some(Action::BroadcastMessage(vec![0, 3]))
    );
    assert_eq!(announced(SystemEvents::NewHeadBlock(0x0405)), vec![1, 4, 5]);
    assert_eq!(NetworkActor::handle_system_event(SystemEvents::Other, encode), None);
}

#[test]
fn new_head_block_spreads() {
    let node1 = node();
    let bytes = announced(SystemEvents::NewHeadBlock(77));
    assert_eq!(
        receive(node1.id, bytes),
        Ok(Action::BroadcastSync(Broadcast {
            msg: SyncMessage::DownloadMessage(DownloadMessage::NewHeadBlock(
                PeerInfo { peer_id: node1.id },
                77
            ))
        }))
    );
}

#[test]
fn last_request_id_counts() {
    let mut response = RPCResponse::<TestChain> { id: hash(1), body: 3 };
    response.set_request_id(hash(2));
    assert_eq!(response.get_id(), hash(2));
    response.set_request_id(hash(4));
    assert_eq!(response, RPCResponse { id: hash(4), body: 3 });
}

#[test]
fn reactions_tell_messages_and_peers_apart() {
    let a = PeerId::random();
    let b = PeerId::random();
    let from_a = NetworkActor::handle_network_message(a, Message::Block(1));
    assert_ne!(from_a, NetworkActor::handle_network_message(b, Message::Block(1)));
    assert_ne!(from_a, NetworkActor::handle_network_message(a, Message::Block(2)));
    assert_eq!(
        NetworkActor::handle_network_message(a, Message::UserTransaction(1)),
        NetworkActor::handle_network_message(b, Message::UserTransaction(1))
    );
}

#[test]
fn seeds_are_listed_in_order() {
    assert_eq!(seed_list(&vec![]), "");
    let seeds = vec![
        String::from("/ip4/127.0.0.1/tcp/1"),
        String::from("/ip4/127.0.0.1/tcp/2"),
        String::from("x"),
    ];
    assert_eq!(seed_list(&seeds), "/ip4/127.0.0.1/tcp/1/ip4/127.0.0.1/tcp/2x");
}

#[test]
fn message_arrives_as_it_was_sent() {
    let mut node1 = node();
    let node2 = node();
    assert_eq!(node1
        .service
        .send_peer_message(node2.id, Message::LatestStateMsg(true), encode), Ok(()));
    let wire = node1.sent();
    assert_eq!(wire.peer_id, node2.id);
    assert_eq!(
        receive(node1.id, wire.data),
        Ok(NetworkActor::handle_network_message(node1.id, Message::LatestStateMsg(true)))
    );
}
