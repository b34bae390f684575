use mqtt::client::{DisconnectStep, ImmovableClient, Issued};
use mqtt::context::ClientArena;
use mqtt::correlator::ActionResult;
use mqtt::error::{CallbackError, CommandError, ConnectError, MqttError, Operation};
use mqtt::handle::AsyncClient;
use mqtt::iterator::Step;
use mqtt::message::AsyncMessage;
use mqtt::options::{AsyncConnectOptions, AsyncDisconnectOptions, PersistenceType, Qos};

fn delivery(byte: u8) -> AsyncMessage {
    let mut m = AsyncMessage::new();
    m.payload = vec![byte];
    m.payloadlen = 1;
    m.qos = 1;
    m
}

#[test]
fn contexts_are_given_out_in_order_and_stay() {
    let mut arena = ClientArena::new();
    assert_eq!(arena.len(), 1);
    assert!(!arena.is_live(0));
    let a = arena.allocate(ImmovableClient::new("tcp://h:1883", "A", PersistenceType::Nothing));
    let b = arena.allocate(ImmovableClient::new("tcp://h:1883", "B", PersistenceType::Nothing));
    assert_eq!((a, b), (1, 2));
    assert!(arena.is_live(a) && arena.is_live(b));
    assert!(!arena.is_live(0));
    assert!(!arena.is_live(3));
    for n in 0..100 {
        let next = arena.allocate(ImmovableClient::new("tcp://x", "more", PersistenceType::Default));
        assert_eq!(next, 3 + n);
    }
    assert_eq!(arena.client(a).unwrap().clientid(), "A");
    assert_eq!(arena.client(b).unwrap().clientid(), "B");
    assert_eq!(arena.len(), 103);
}

#[test]
fn a_released_context_is_never_given_out_again() {
    let mut arena = ClientArena::new();
    let a = arena.allocate(ImmovableClient::new("tcp://h:1883", "A", PersistenceType::Nothing));
    let b = arena.allocate(ImmovableClient::new("tcp://h:1883", "B", PersistenceType::Nothing));
    let gone = arena.release(a).unwrap();
    assert_eq!(gone.clientid(), "A");
    assert!(!arena.is_live(a));
    assert!(arena.is_live(b));
    assert!(arena.release(a).is_none());
    assert!(arena.release(99).is_none());
    let c = arena.allocate(ImmovableClient::new("tcp://h:1883", "C", PersistenceType::Nothing));
    assert_eq!(c, 3);
    assert!(arena.client(a).is_none());
    assert!(arena.client_mut(a).is_none());
    assert_eq!(arena.client(b).unwrap().clientid(), "B");
}

#[test]
fn callbacks_under_a_dead_context_are_dropped() {
    let mut arena = ClientArena::new();
    let a = arena.allocate(ImmovableClient::new("tcp://h:1883", "A", PersistenceType::Nothing));
    assert!(arena.release(a).is_some());
    assert!(!arena.action_succeeded(a));
    assert!(!arena.action_failed(a, Some(1)));
    assert_eq!(arena.received(a, b"t", 1, &delivery(1)), 0);
    assert!(!arena.action_succeeded(7));
    assert_eq!(arena.received(7, b"t", 1, &delivery(1)), 0);
    assert!(!arena.action_succeeded(0));
    assert!(!arena.action_failed(0, None));
    assert_eq!(arena.received(0, b"t", 1, &delivery(1)), 0);
    assert!(arena.client(0).is_none());
    assert!(arena.release(0).is_none());
}

#[test]
fn two_clients_on_one_address_are_independent() {
    let mut arena = ClientArena::new();
    let one = AsyncClient::new(&mut arena, "tcp://localhost:1883", "One", PersistenceType::Nothing, 0)
        .unwrap();
    let two = AsyncClient::new(&mut arena, "tcp://localhost:1883", "Two", PersistenceType::Nothing, 0)
        .unwrap();
    assert_ne!(one.context(), two.context());

    assert!(one.connect(&mut arena, &AsyncConnectOptions::new()).is_some());
    assert!(two.send(&mut arena, &[1], "t", Qos::FireAndForget).is_some());
    assert_eq!(one.issued(&mut arena, Operation::Connect, 0), Issued::Wait);
    assert_eq!(two.issued(&mut arena, Operation::Send, 0), Issued::Wait);

    // The completion of one is not seen by the other.
    assert!(arena.action_failed(one.context(), Some(7)));
    assert_eq!(
        arena.client(one.context()).unwrap().action_result(),
        ActionResult::Failed(CallbackError::Response(7))
    );
    assert_eq!(arena.client(two.context()).unwrap().action_result(), ActionResult::Unsettled);
    assert!(!two.settled(&arena, Operation::Send, false));
    assert!(arena.action_succeeded(two.context()));
    assert_eq!(
        one.finished(&arena, Operation::Connect, false),
        Err(MqttError::Connect(ConnectError::CallbackResponse(7)))
    );
    assert_eq!(two.finished(&arena, Operation::Send, true), Ok(()));

    // Nor are its messages.
    assert_eq!(arena.received(one.context(), b"t", 1, &delivery(1)), 1);
    assert_eq!(arena.received(two.context(), b"t", 1, &delivery(2)), 1);
    assert_eq!(arena.received(one.context(), b"t", 1, &delivery(3)), 1);
    assert_eq!(arena.client_mut(one.context()).unwrap().messages().len(), 2);
    assert_eq!(arena.client_mut(two.context()).unwrap().messages().len(), 1);
    let first = arena.client_mut(one.context()).unwrap().messages().pop_if_available();
    assert_eq!(first.unwrap().payload, Some(vec![1]));
    let other = arena.client_mut(two.context()).unwrap().messages().pop_if_available();
    assert_eq!(other.unwrap().payload, Some(vec![2]));
    assert_eq!(arena.client_mut(one.context()).unwrap().messages().len(), 1);
}

#[test]
fn create_failure_leaves_the_arena_alone() {
    let mut arena = ClientArena::new();
    assert_eq!(
        AsyncClient::new(&mut arena, "bad address", "X", PersistenceType::Nothing, -2),
        Err(MqttError::Create(-2))
    );
    assert_eq!(arena.len(), 1);
    let ok = AsyncClient::new(&mut arena, "tcp://h:1", "X", PersistenceType::User, 0).unwrap();
    assert_eq!(ok.context(), 1);
    assert_eq!(arena.client(1).unwrap().address(), "tcp://h:1");
    assert_eq!(arena.client(1).unwrap().clientid(), "X");
    assert_eq!(arena.client(1).unwrap().persistence(), PersistenceType::User);
}

#[test]
fn connect_scenario_through_the_handle() {
    let mut arena = ClientArena::new();
    let client = AsyncClient::new(
        &mut arena,
        "tcp://localhost:1883",
        "TestClientId",
        PersistenceType::Nothing,
        0,
    )
    .unwrap();
    let call = client.connect(&mut arena, &AsyncConnectOptions::new()).unwrap();
    assert_eq!(call.context, Some(client.context()));
    assert_eq!(call.keep_alive_interval, 20);
    assert_eq!(call.cleansession, 1);
    assert_eq!(call.max_inflight, 10);
    assert_eq!(call.connect_timeout, 30);
    assert_eq!(call.retry_interval, 0);
    assert_eq!(client.issued(&mut arena, Operation::Connect, 0), Issued::Wait);
    // The transport calls back with the context that the call carried.
    assert!(arena.action_succeeded(call.context.unwrap()));
    let connected = AsyncClient::is_connected(1);
    assert!(client.settled(&arena, Operation::Connect, connected));
    assert_eq!(client.finished(&arena, Operation::Connect, connected), Ok(()));
    assert!(AsyncClient::is_connected(1));
}

#[test]
fn the_handle_can_move_and_the_context_stays() {
    let mut arena = ClientArena::new();
    let client =
        AsyncClient::new(&mut arena, "tcp://h:1", "Mover", PersistenceType::Nothing, 0).unwrap();
    let context = client.context();
    let call = client.subscribe(&mut arena, "t", Qos::AtLeastOnce).unwrap();
    let boxed = Box::new(client);
    let moved = vec![*boxed];
    assert_eq!(moved[0].context(), context);
    assert_eq!(call.response.context, Some(context));
    assert_eq!(moved[0].issued(&mut arena, Operation::Subscribe, 0), Issued::Wait);
    assert!(arena.action_succeeded(context));
    assert_eq!(moved[0].finished(&arena, Operation::Subscribe, true), Ok(()));
}

#[test]
fn subscribe_then_deliver_through_the_handle() {
    let mut arena = ClientArena::new();
    let client = AsyncClient::new(
        &mut arena,
        "tcp://localhost:1883",
        "TestClientId",
        PersistenceType::Nothing,
        0,
    )
    .unwrap();
    let call = client.subscribe(&mut arena, "TestTopic", Qos::AtLeastOnce).unwrap();
    assert_eq!(call.topic, "TestTopic");
    assert_eq!(call.qos, 1);
    assert_eq!(client.issued(&mut arena, Operation::Subscribe, 0), Issued::Wait);
    assert!(arena.action_succeeded(client.context()));
    assert_eq!(client.finished(&arena, Operation::Subscribe, true), Ok(()));

    let mut descriptor = AsyncMessage::new();
    descriptor.payload = vec![0x31, 0x32];
    descriptor.payloadlen = 2;
    descriptor.qos = 1;
    assert_eq!(arena.received(client.context(), b"TestTopic", 9, &descriptor), 1);

    let pull = client.messages(None).start();
    let queue = arena.client_mut(client.context()).unwrap().messages();
    match pull.poll(queue) {
        Step::Deliver(message) => {
            assert_eq!(message.topic, "TestTopic");
            assert_eq!(message.payload, Some(vec![0x31, 0x32]));
            assert_eq!(message.qos, Qos::AtLeastOnce);
            assert!(!message.retained);
            assert!(!message.duplicate);
        }
        other => panic!("unexpected step {:?}", other),
    }
    let queue = arena.client_mut(client.context()).unwrap().messages();
    assert_eq!(pull.poll(queue), Step::WaitForever);
}

#[test]
fn handle_operations_on_a_released_client_are_refused() {
    let mut arena = ClientArena::new();
    let client =
        AsyncClient::new(&mut arena, "tcp://h:1", "Gone", PersistenceType::Nothing, 0).unwrap();
    let twin = AsyncClient::new(&mut arena, "tcp://h:1", "Stays", PersistenceType::Nothing, 0)
        .unwrap();
    let mut other = ClientArena::new();
    assert!(client.connect(&mut other, &AsyncConnectOptions::new()).is_none());
    assert!(client.send(&mut other, &[1], "t", Qos::FireAndForget).is_none());
    assert!(client.subscribe(&mut other, "t", Qos::FireAndForget).is_none());
    assert_eq!(
        client.disconnect(&mut other, true, &AsyncDisconnectOptions::new()),
        DisconnectStep::Refused
    );
    assert_eq!(
        client.disconnect(&mut other, false, &AsyncDisconnectOptions::new()),
        DisconnectStep::NotConnected
    );
    assert_eq!(
        client.issued(&mut other, Operation::Send, 3),
        Issued::Failed(MqttError::Send(CommandError::ReturnCode(3)))
    );
    assert!(!client.settled(&other, Operation::Connect, true));
    let context = client.context();
    assert_eq!(client.release(&mut arena).unwrap().clientid(), "Gone");
    assert!(!arena.is_live(context));
    assert!(arena.is_live(twin.context()));
}

#[test]
fn disconnect_through_the_handle() {
    let mut arena = ClientArena::new();
    let client =
        AsyncClient::new(&mut arena, "tcp://h:1", "D", PersistenceType::Nothing, 0).unwrap();
    let options = AsyncDisconnectOptions { timeout: 100 };
    match client.disconnect(&mut arena, true, &options) {
        DisconnectStep::Call(call) => {
            assert_eq!(call.timeout, 100);
            assert_eq!(call.context, Some(client.context()));
        }
        other => panic!("unexpected step {:?}", other),
    }
    assert_eq!(client.issued(&mut arena, Operation::Disconnect, 0), Issued::Wait);
    assert!(arena.action_succeeded(client.context()));
    assert_eq!(client.finished(&arena, Operation::Disconnect, false), Ok(()));
}
