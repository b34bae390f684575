use mqtt::client::{DisconnectStep, ImmovableClient, Issued};
use mqtt::correlator::ActionResult;
use mqtt::error::{
    CallbackError, CommandError, ConnectErrReturnCode, ConnectError, DisconnectError, MqttError,
    Operation,
};
use mqtt::message::{AsyncMessage, Message};
use mqtt::options::{AsyncConnectOptions, AsyncDisconnectOptions, PersistenceType, Qos};

fn client() -> ImmovableClient {
    ImmovableClient::new("tcp://localhost:1883", "TestClientId", PersistenceType::Nothing)
}

#[test]
fn a_new_client_keeps_what_it_was_given() {
    let c = ImmovableClient::new("tcp://localhost:1883", "TestClientId", PersistenceType::User);
    assert_eq!(c.address(), "tcp://localhost:1883");
    assert_eq!(c.clientid(), "TestClientId");
    assert_eq!(c.persistence(), PersistenceType::User);
    assert_eq!(c.action_result(), ActionResult::Unsettled);
}

#[test]
fn create_reports_the_transport_code() {
    let c = client();
    assert_eq!(c.create(0), Ok(()));
    assert_eq!(c.create(-1), Err(MqttError::Create(-1)));
    assert_eq!(c.create(5), Err(MqttError::Create(5)));
}

#[test]
fn is_connected_reads_one_as_yes() {
    assert!(ImmovableClient::is_connected(1));
    assert!(!ImmovableClient::is_connected(0));
    assert!(!ImmovableClient::is_connected(2));
    assert!(!ImmovableClient::is_connected(-1));
}

#[test]
fn connect_fills_the_option_block() {
    let mut c = client();
    let mut options = AsyncConnectOptions::new();
    options.keep_alive_interval = 45;
    options.cleansession = 0;
    options.max_in_flight = 3;
    options.connect_timeout = 12;
    options.retry_interval = 8;
    let call = c.connect(17, &options).unwrap();
    assert_eq!(call.struct_id, [b'M' as i8, b'Q' as i8, b'T' as i8, b'C' as i8]);
    assert_eq!(call.struct_version, 3);
    assert_eq!(call.keep_alive_interval, 45);
    assert_eq!(call.cleansession, 0);
    assert_eq!(call.max_inflight, 3);
    assert_eq!(call.connect_timeout, 12);
    assert_eq!(call.retry_interval, 8);
    assert_eq!(call.server_uri_count, 0);
    assert_eq!(call.mqtt_version, 0);
    assert!(call.callbacks);
    assert_eq!(call.context, Some(17));
}

#[test]
fn connect_with_defaults_succeeds_when_the_callback_reports_success() {
    let mut c = client();
    let call = c.connect(0, &AsyncConnectOptions::new()).unwrap();
    assert_eq!(call.keep_alive_interval, 20);
    assert_eq!(c.issued(Operation::Connect, 0), Issued::Wait);
    assert!(c.action_succeeded());
    let connected = ImmovableClient::is_connected(1);
    assert!(c.settled(Operation::Connect, connected));
    assert_eq!(c.finished(Operation::Connect, connected), Ok(()));
    assert!(ImmovableClient::is_connected(1));
}

#[test]
fn connect_refused_at_once_is_identifier_rejected() {
    let mut c = client();
    assert!(c.connect(0, &AsyncConnectOptions::new()).is_some());
    assert_eq!(
        c.issued(Operation::Connect, 2),
        Issued::Failed(MqttError::Connect(ConnectError::ReturnCode(
            ConnectErrReturnCode::IdentifierRejected
        )))
    );
    // No completion is awaited: a callback that came now would meet no request.
    assert_eq!(c.action_result(), ActionResult::Unsettled);
    assert!(!c.action_succeeded());
    assert_eq!(c.action_result(), ActionResult::Unsettled);
    assert!(c.connect(0, &AsyncConnectOptions::new()).is_some());
}

#[test]
fn connect_failure_callback_with_code() {
    let mut c = client();
    assert!(c.connect(0, &AsyncConnectOptions::new()).is_some());
    assert_eq!(c.issued(Operation::Connect, 0), Issued::Wait);
    assert!(c.action_failed(Some(7)));
    assert_eq!(c.action_result(), ActionResult::Failed(CallbackError::Response(7)));
    assert!(c.settled(Operation::Connect, false));
    assert_eq!(
        c.finished(Operation::Connect, false),
        Err(MqttError::Connect(ConnectError::CallbackResponse(7)))
    );
}

#[test]
fn connect_failure_callback_without_detail() {
    let mut c = client();
    assert!(c.connect(0, &AsyncConnectOptions::new()).is_some());
    assert_eq!(c.issued(Operation::Connect, 0), Issued::Wait);
    assert!(c.action_failed(None));
    assert_eq!(
        c.finished(Operation::Connect, false),
        Err(MqttError::Connect(ConnectError::CallbackNullPtr))
    );
}

#[test]
fn the_live_query_decides_over_the_callback() {
    let mut c = client();
    assert!(c.connect(0, &AsyncConnectOptions::new()).is_some());
    assert_eq!(c.issued(Operation::Connect, 0), Issued::Wait);
    assert!(c.action_failed(Some(7)));
    assert_eq!(c.finished(Operation::Connect, true), Ok(()));
}

#[test]
fn success_callback_on_a_dead_session_is_not_settled() {
    let mut c = client();
    assert!(c.connect(0, &AsyncConnectOptions::new()).is_some());
    assert_eq!(c.issued(Operation::Connect, 0), Issued::Wait);
    assert!(!c.settled(Operation::Connect, false));
    assert!(!c.settled(Operation::Connect, true));
    assert!(c.action_succeeded());
    assert!(!c.settled(Operation::Connect, false));
    assert!(c.settled(Operation::Connect, true));
    assert!(!c.settled(Operation::Disconnect, true));
    assert!(c.settled(Operation::Disconnect, false));
}

#[test]
fn one_request_at_a_time() {
    let mut c = client();
    assert!(c.connect(0, &AsyncConnectOptions::new()).is_some());
    assert!(c.connect(0, &AsyncConnectOptions::new()).is_none());
    assert!(c.send(0, &[1], "t", Qos::FireAndForget).is_none());
    assert!(c.subscribe(0, "t", Qos::FireAndForget).is_none());
    assert_eq!(c.disconnect(0, true, &AsyncDisconnectOptions::new()), DisconnectStep::Refused);
    assert!(c.action_succeeded());
    assert!(c.send(0, &[1], "t", Qos::FireAndForget).is_some());
}

#[test]
fn disconnect_of_a_session_that_is_not_connected_needs_no_request() {
    let mut c = client();
    assert_eq!(
        c.disconnect(0, false, &AsyncDisconnectOptions::new()),
        DisconnectStep::NotConnected
    );
    assert_eq!(c.action_result(), ActionResult::Unsettled);
    assert!(!c.action_succeeded());
}

#[test]
fn disconnect_of_a_connected_session() {
    let mut c = client();
    let options = AsyncDisconnectOptions { timeout: 250 };
    match c.disconnect(4, true, &options) {
        DisconnectStep::Call(call) => {
            assert_eq!(call.struct_id, [b'M' as i8, b'Q' as i8, b'T' as i8, b'D' as i8]);
            assert_eq!(call.struct_version, 0);
            assert_eq!(call.timeout, 250);
            assert!(call.callbacks);
            assert_eq!(call.context, Some(4));
        }
        other => panic!("unexpected step {:?}", other),
    }
    assert_eq!(c.issued(Operation::Disconnect, 0), Issued::Wait);
    assert!(c.action_succeeded());
    assert_eq!(c.finished(Operation::Disconnect, false), Ok(()));
}

#[test]
fn disconnect_failures() {
    let mut c = client();
    assert!(matches!(
        c.disconnect(0, true, &AsyncDisconnectOptions::new()),
        DisconnectStep::Call(_)
    ));
    assert_eq!(
        c.issued(Operation::Disconnect, -3),
        Issued::Failed(MqttError::Disconnect(DisconnectError::ReturnCode(-3)))
    );
    assert!(matches!(
        c.disconnect(0, true, &AsyncDisconnectOptions::new()),
        DisconnectStep::Call(_)
    ));
    assert_eq!(c.issued(Operation::Disconnect, 0), Issued::Wait);
    assert!(c.action_failed(Some(11)));
    assert_eq!(
        c.finished(Operation::Disconnect, true),
        Err(MqttError::Disconnect(DisconnectError::CallbackResponse(11)))
    );
    assert_eq!(c.finished(Operation::Disconnect, false), Ok(()));
}

#[test]
fn send_builds_the_descriptor() {
    let mut c = client();
    let call = c.send(3, &[0x31, 0x32, 0x33], "TestTopic", Qos::AtLeastOnce).unwrap();
    assert_eq!(call.topic, "TestTopic");
    assert_eq!(call.message.payload, vec![0x31, 0x32, 0x33]);
    assert_eq!(call.message.payloadlen, 3);
    assert_eq!(call.message.qos, 1);
    assert_eq!(call.message.retained, 0);
    assert_eq!(call.message.dup, 0);
    assert_eq!(call.message.msgid, 0);
    assert_eq!(call.message.struct_id, [b'M' as i8, b'Q' as i8, b'T' as i8, b'M' as i8]);
    assert_eq!(call.response.struct_id, [b'M' as i8, b'Q' as i8, b'T' as i8, b'R' as i8]);
    assert!(call.response.callbacks);
    assert_eq!(call.response.context, Some(3));
    assert_eq!(call.response.token, 0);
    assert_eq!(c.issued(Operation::Send, 0), Issued::Wait);
    assert!(c.action_succeeded());
    assert_eq!(c.finished(Operation::Send, true), Ok(()));
}

#[test]
fn send_failures() {
    let mut c = client();
    assert!(c.send(0, &[1], "t", Qos::FireAndForget).is_some());
    assert_eq!(
        c.issued(Operation::Send, -4),
        Issued::Failed(MqttError::Send(CommandError::ReturnCode(-4)))
    );
    assert!(c.send(0, &[1], "t", Qos::FireAndForget).is_some());
    assert_eq!(c.issued(Operation::Send, 0), Issued::Wait);
    assert!(c.action_failed(Some(9)));
    assert_eq!(
        c.finished(Operation::Send, false),
        Err(MqttError::Send(CommandError::CallbackResponse(9)))
    );
    assert!(c.send(0, &[1], "t", Qos::FireAndForget).is_some());
    assert_eq!(c.issued(Operation::Send, 0), Issued::Wait);
    assert!(c.action_failed(None));
    assert_eq!(
        c.finished(Operation::Send, false),
        Err(MqttError::Send(CommandError::CallbackNullPtr))
    );
}

#[test]
fn subscribe_builds_the_call() {
    let mut c = client();
    let call = c.subscribe(5, "TestTopic", Qos::OnceAndOneOnly).unwrap();
    assert_eq!(call.topic, "TestTopic");
    assert_eq!(call.qos, 2);
    assert!(call.response.callbacks);
    assert_eq!(call.response.context, Some(5));
    assert_eq!(c.issued(Operation::Subscribe, 0), Issued::Wait);
    assert!(c.action_succeeded());
    assert_eq!(c.finished(Operation::Subscribe, true), Ok(()));
}

#[test]
fn subscribe_failures() {
    let mut c = client();
    assert!(c.subscribe(0, "t", Qos::FireAndForget).is_some());
    assert_eq!(
        c.issued(Operation::Subscribe, 6),
        Issued::Failed(MqttError::Subscribe(CommandError::ReturnCode(6)))
    );
    assert!(c.subscribe(0, "t", Qos::FireAndForget).is_some());
    assert_eq!(c.issued(Operation::Subscribe, 0), Issued::Wait);
    assert!(c.action_failed(Some(-2)));
    assert_eq!(
        c.finished(Operation::Subscribe, false),
        Err(MqttError::Subscribe(CommandError::CallbackResponse(-2)))
    );
}

#[test]
fn the_outcome_is_that_of_the_last_request() {
    let mut c = client();
    assert!(c.subscribe(0, "t", Qos::FireAndForget).is_some());
    assert_eq!(c.issued(Operation::Subscribe, 0), Issued::Wait);
    assert!(c.action_failed(Some(1)));
    assert!(c.send(0, &[1], "t", Qos::FireAndForget).is_some());
    assert_eq!(c.action_result(), ActionResult::Unsettled);
    assert!(!c.settled(Operation::Send, false));
    assert_eq!(c.issued(Operation::Send, 0), Issued::Wait);
    assert!(c.action_failed(Some(2)));
    assert_eq!(
        c.finished(Operation::Send, false),
        Err(MqttError::Send(CommandError::CallbackResponse(2)))
    );
}

#[test]
fn subscribed_topic_delivers_to_the_cursor() {
    let mut c = client();
    assert!(c.subscribe(0, "TestTopic", Qos::AtLeastOnce).is_some());
    assert_eq!(c.issued(Operation::Subscribe, 0), Issued::Wait);
    assert!(c.action_succeeded());
    assert_eq!(c.finished(Operation::Subscribe, true), Ok(()));

    let mut descriptor = AsyncMessage::new();
    descriptor.payload = vec![0x31, 0x32];
    descriptor.payloadlen = 2;
    descriptor.qos = 1;
    descriptor.retained = 0;
    descriptor.dup = 0;
    assert_eq!(c.received(b"TestTopic", 9, &descriptor), 1);

    let got = c.messages().pop_if_available().unwrap();
    assert_eq!(got.topic, "TestTopic");
    assert_eq!(got.payload, Some(vec![0x31, 0x32]));
    assert_eq!(got.qos, Qos::AtLeastOnce);
    assert!(!got.retained);
    assert!(!got.duplicate);
    assert_eq!(c.messages().pop_if_available(), None);
}

#[test]
fn received_refuses_what_is_not_deliverable() {
    let mut c = client();
    let mut descriptor = AsyncMessage::new();
    descriptor.qos = 5;
    assert_eq!(c.received(b"t", 1, &descriptor), 0);
    assert_eq!(c.received(&[0xff], 1, &AsyncMessage::new()), 0);
    assert_eq!(c.received(b"t", 2, &AsyncMessage::new()), 0);
    assert!(c.messages().is_empty());
    assert_eq!(c.received(b"t", 1, &AsyncMessage::new()), 1);
    assert_eq!(c.messages().len(), 1);
}

#[test]
fn received_keeps_the_order_of_delivery() {
    let mut c = client();
    for byte in 1..=5u8 {
        let mut descriptor = AsyncMessage::new();
        descriptor.payload = vec![byte];
        descriptor.payloadlen = 1;
        assert_eq!(c.received(b"t", 1, &descriptor), 1);
        if byte == 2 {
            let first: Message = c.messages().pop_if_available().unwrap();
            assert_eq!(first.payload, Some(vec![1]));
        }
    }
    let mut rest = Vec::new();
    while let Some(m) = c.messages().pop_if_available() {
        rest.push(m.payload.unwrap()[0]);
    }
    assert_eq!(rest, vec![2, 3, 4, 5]);
}
