//! The state of one client and the steps of its operations.
//!
//! Every request runs in three steps.  The first (`connect`, `disconnect`,
//! `send`, `subscribe`) arms the correlator and says what to hand to the
//! transport.  The caller makes the transport call and reports its return
//! code to `issued`, which says whether to wait for the completion callback.
//! After the wait the caller asks the transport whether the session is
//! connected and gets the result of the operation from `finished`.  The
//! callbacks of the transport enter through `action_succeeded`,
//! `action_failed` and `received`.

use crate::correlator::{ActionResult, CorrelatorState, Outcome, RequestCorrelator};
use crate::error::{CallbackError, MqttError, Operation};
use crate::message::{
    deliverable, delivered, message_struct_id, AsyncMessage, Message, MessageView,
};
use crate::options::{
    connect_struct_id, disconnect_struct_id, response_struct_id, AsyncConnectOptions,
    AsyncDisconnectOptions, MQTTAsync_connectOptions, MQTTAsync_disconnectOptions,
    MQTTAsync_responseOptions, PersistenceType, Qos,
};
use crate::queue::MessageQueue;
use vstd::prelude::*;

verus! {

/// The state of one client.  It is meant to stay where it was first put: the
/// transport is given a token for it once and reports back under that token.
pub struct ImmovableClient {
    address: String,
    clientid: String,
    persistence: PersistenceType,
    correlator: RequestCorrelator,
    messages: MessageQueue,
}

/// A client as a mathematical value.
pub struct ClientView {
    pub address: Seq<char>,
    pub clientid: Seq<char>,
    pub persistence: PersistenceType,
    pub correlator: CorrelatorState,
    pub messages: Seq<MessageView>,
}

/// What can happen to a client.
pub enum ClientEvent {
    /// The first step of a request: the correlator is armed, unless a
    /// request is in flight already.
    Armed,
    /// The transport returned this code for the call of the request.
    Issued(i32),
    /// The success callback came.
    Succeeded,
    /// The failure callback came, with the transport's code if it gave one.
    Failed(Option<i32>),
    /// The delivery callback came with a message.
    Received { topic_name: Seq<u8>, topic_len: i32, message: AsyncMessage },
    /// A consumer took the oldest message, if one was waiting.
    Pulled,
}

impl View for ImmovableClient {
    type V = ClientView;

    closed spec fn view(&self) -> ClientView {
        ClientView {
            address: self.address@,
            clientid: self.clientid@,
            persistence: self.persistence,
            correlator: self.correlator@,
            messages: self.messages@,
        }
    }
}

impl DeepView for ImmovableClient {
    type V = ClientView;

    open spec fn deep_view(&self) -> ClientView {
        self@
    }
}

/// What to do after the transport took, or refused, a request.
#[derive(Debug, Clone, Copy, PartialEq, Eq, Structural)]
pub enum Issued {
    /// The transport took the request: wait for the completion callback.
    Wait,
    /// The transport refused the request at once: the operation failed and
    /// no callback will come.
    Failed(MqttError),
}

/// The first step of a disconnect.
#[derive(Debug, PartialEq, Eq)]
pub enum DisconnectStep {
    /// The session is not connected: the disconnect has succeeded.
    NotConnected,
    /// No request can be made: another one is in flight.  Nothing was done.
    Refused,
    /// Hand this to the transport.
    Call(MQTTAsync_disconnectOptions),
}

/// What to hand to the transport for a publish.
#[derive(Debug, PartialEq, Eq)]
pub struct SendCall {
    pub topic: String,
    pub message: AsyncMessage,
    pub response: MQTTAsync_responseOptions,
}

/// What to hand to the transport for a subscribe.
#[derive(Debug, PartialEq, Eq)]
pub struct SubscribeCall {
    pub topic: String,
    pub qos: i32,
    pub response: MQTTAsync_responseOptions,
}

/// Whether `o` is the option block of a connect with `options` under
/// `context`: the transport's defaults, the five values of `options`, the
/// completion callbacks and the context.
pub open spec fn is_connect_call(
    o: MQTTAsync_connectOptions,
    context: usize,
    options: AsyncConnectOptions,
) -> bool {
    &&& o.struct_id@ == connect_struct_id()
    &&& o.struct_version == 3
    &&& o.keep_alive_interval == options.keep_alive_interval
    &&& o.cleansession == options.cleansession
    &&& o.max_inflight == options.max_in_flight
    &&& o.connect_timeout == options.connect_timeout
    &&& o.retry_interval == options.retry_interval
    &&& o.server_uri_count == 0
    &&& o.mqtt_version == 0
    &&& o.callbacks
    &&& o.context == Some(context)
}

/// Whether `o` is the option block of a disconnect with `options` under
/// `context`.
pub open spec fn is_disconnect_call(
    o: MQTTAsync_disconnectOptions,
    context: usize,
    options: AsyncDisconnectOptions,
) -> bool {
    &&& o.struct_id@ == disconnect_struct_id()
    &&& o.struct_version == 0
    &&& o.timeout == options.timeout
    &&& o.callbacks
    &&& o.context == Some(context)
}

/// Whether `r` asks for both completion callbacks under `context`.
pub open spec fn is_response_call(r: MQTTAsync_responseOptions, context: usize) -> bool {
    &&& r.struct_id@ == response_struct_id()
    &&& r.struct_version == 0
    &&& r.callbacks
    &&& r.context == Some(context)
    &&& r.token == 0
}

/// Whether `c` is the publish of `data` to `topic` at level `qos` under
/// `context`: the payload whole, neither retained nor a duplicate.
pub open spec fn is_send_call(
    c: SendCall,
    context: usize,
    data: Seq<u8>,
    topic: Seq<char>,
    qos: Qos,
) -> bool {
    &&& c.topic@ == topic
    &&& c.message.struct_id@ == message_struct_id()
    &&& c.message.struct_version == 0
    &&& c.message.payload@ == data
    &&& c.message.payloadlen == data.len()
    &&& c.message.qos == qos.spec_code()
    &&& c.message.retained == 0
    &&& c.message.dup == 0
    &&& c.message.msgid == 0
    &&& is_response_call(c.response, context)
}

/// Whether `c` is the subscription to `topic` at level `qos` under
/// `context`.
pub open spec fn is_subscribe_call(
    c: SubscribeCall,
    context: usize,
    topic: Seq<char>,
    qos: Qos,
) -> bool {
    &&& c.topic@ == topic
    &&& c.qos == qos.spec_code()
    &&& is_response_call(c.response, context)
}

impl ClientView {
    /// A client that has done nothing yet: idle, with no message waiting.
    pub open spec fn fresh(
        address: Seq<char>,
        clientid: Seq<char>,
        persistence: PersistenceType,
    ) -> ClientView {
        ClientView {
            address,
            clientid,
            persistence,
            correlator: CorrelatorState::Idle,
            messages: Seq::empty(),
        }
    }

    /// The client with another correlator state.
    pub open spec fn with_correlator(self, correlator: CorrelatorState) -> ClientView {
        ClientView { correlator, ..self }
    }

    /// The client after `event`.
    pub open spec fn after(self, event: ClientEvent) -> ClientView {
        match event {
            ClientEvent::Armed => if self.correlator.can_arm() {
                self.with_correlator(self.correlator.arm())
            } else {
                self
            },
            ClientEvent::Issued(return_code) => if return_code == 0 {
                self
            } else {
                self.with_correlator(CorrelatorState::Idle)
            },
            ClientEvent::Succeeded => self.with_correlator(
                self.correlator.complete(Outcome::Success),
            ),
            ClientEvent::Failed(code) => self.with_correlator(
                self.correlator.complete(Outcome::Failure(CallbackError::spec_from_detail(code))),
            ),
            ClientEvent::Received { topic_name, topic_len, message } => if deliverable(
                topic_name,
                topic_len,
                message,
            ) {
                ClientView { messages: self.messages.push(delivered(topic_name, message)), ..self }
            } else {
                self
            },
            ClientEvent::Pulled => if self.messages.len() > 0 {
                ClientView {
                    messages: self.messages.subrange(1, self.messages.len() as int),
                    ..self
                }
            } else {
                self
            },
        }
    }

    /// Whether the session is, by the transport's own word, in the state
    /// that `op` was to bring about.
    pub open spec fn reached(op: Operation, connected: bool) -> bool {
        if op == Operation::Disconnect {
            !connected
        } else {
            connected
        }
    }

    /// Whether the result of `op` can be told: the completion callback has
    /// come, and either the session is in the state that `op` was to bring
    /// about or the callback reported a failure.  A reported success on a
    /// session that is not in that state is a contradiction between the
    /// transport's callback and its own word, and settles nothing.
    pub open spec fn settled(self, op: Operation, connected: bool) -> bool {
        match self.correlator {
            CorrelatorState::Completed(Outcome::Success) => Self::reached(op, connected),
            CorrelatorState::Completed(Outcome::Failure(_)) => true,
            _ => false,
        }
    }

    /// The result of `op` once it is settled.  The transport's word on the
    /// session decides; the recorded failure is the error where the session
    /// is not in the state that `op` was to bring about.
    pub open spec fn result(self, op: Operation, connected: bool) -> Result<(), MqttError> {
        if Self::reached(op, connected) {
            Ok(())
        } else {
            Err(MqttError::spec_failed(op, self.correlator.action_result()->Failed_0))
        }
    }
}

impl ImmovableClient {
    /// A client for the server at `address` under the name `clientid`: idle,
    /// with no message waiting.
    pub fn new(address: &str, clientid: &str, persistence: PersistenceType) -> (c: ImmovableClient)
        ensures
            c@ == ClientView::fresh(address@, clientid@, persistence),
    {
        ImmovableClient {
            address: address.to_owned(),
            clientid: clientid.to_owned(),
            persistence,
            correlator: RequestCorrelator::new(),
            messages: MessageQueue::new(),
        }
    }

    /// What became of the creation of the session, from the code that the
    /// transport returned for it.
    pub fn create(&self, return_code: i32) -> (r: Result<(), MqttError>)
        ensures
            return_code == 0 ==> r == Ok::<(), MqttError>(()),
            return_code != 0 ==> r == Err::<(), MqttError>(MqttError::Create(return_code)),
    {
        if return_code == 0 {
            Ok(())
        } else {
            Err(MqttError::Create(return_code))
        }
    }

    /// Reads the transport's answer to "is this session connected": 1 is
    /// yes, every other number is no.
    pub fn is_connected(answer: i32) -> (connected: bool)
        ensures
            connected == (answer == 1),
    {
        answer == 1
    }

    /// First step of a connect.  Arms the correlator and returns the option
    /// block for the transport: its defaults, the five values of `options`,
    /// the completion callbacks and `context`.  The delivery callbacks are
    /// to be registered under the same `context` before the call.  `None`,
    /// and no change, while another request is in flight.
    pub fn connect(&mut self, context: usize, options: &AsyncConnectOptions) -> (call: Option<
        MQTTAsync_connectOptions,
    >)
        ensures
            call is Some <==> old(self)@.correlator.can_arm(),
            final(self)@ == old(self)@.after(ClientEvent::Armed),
            call matches Some(o) ==> is_connect_call(o, context, *options),
    {
        if !self.correlator.arm() {
            return None;
        }
        let mut async_opts = MQTTAsync_connectOptions::new();
        async_opts.keep_alive_interval = options.keep_alive_interval;
        async_opts.cleansession = options.cleansession;
        async_opts.max_inflight = options.max_in_flight;
        async_opts.connect_timeout = options.connect_timeout;
        async_opts.retry_interval = options.retry_interval;
        async_opts.context = Some(context);
        async_opts.callbacks = true;
        Some(async_opts)
    }

    /// First step of a disconnect, given the transport's word on whether the
    /// session is connected.  A session that is not connected needs no
    /// request.  Otherwise arms the correlator and returns the option block
    /// for the transport: the timeout of `options`, the completion callbacks
    /// and `context`.
    pub fn disconnect(
        &mut self,
        context: usize,
        connected: bool,
        options: &AsyncDisconnectOptions,
    ) -> (step: DisconnectStep)
        ensures
            !connected ==> step == DisconnectStep::NotConnected,
            connected && !old(self)@.correlator.can_arm() ==> step == DisconnectStep::Refused,
            connected && old(self)@.correlator.can_arm() ==> step is Call,
            step is Call ==> final(self)@ == old(self)@.after(ClientEvent::Armed),
            !(step is Call) ==> final(self)@ == old(self)@,
            step matches DisconnectStep::Call(o) ==> is_disconnect_call(o, context, *options),
    {
        if !connected {
            return DisconnectStep::NotConnected;
        }
        if !self.correlator.arm() {
            return DisconnectStep::Refused;
        }
        let mut async_opts = MQTTAsync_disconnectOptions::new();
        async_opts.timeout = options.timeout;
        async_opts.context = Some(context);
        async_opts.callbacks = true;
        DisconnectStep::Call(async_opts)
    }

    /// First step of a publish.  Arms the correlator and returns the topic,
    /// the descriptor that carries `data` whole at level `qos`, and the
    /// response options with the completion callbacks and `context`.
    /// `None`, and no change, while another request is in flight.
    pub fn send(&mut self, context: usize, data: &[u8], topic: &str, qos: Qos) -> (call: Option<
        SendCall,
    >)
        requires
            data@.len() <= i32::MAX,
        ensures
            call is Some <==> old(self)@.correlator.can_arm(),
            final(self)@ == old(self)@.after(ClientEvent::Armed),
            call matches Some(c) ==> is_send_call(c, context, data@, topic@, qos),
    {
        if !self.correlator.arm() {
            return None;
        }
        Some(
            SendCall {
                topic: topic.to_owned(),
                message: AsyncMessage::outbound(data, qos),
                response: MQTTAsync_responseOptions::new(context),
            },
        )
    }

    /// First step of a subscribe.  Arms the correlator and returns the
    /// topic, the number of the level `qos`, and the response options with
    /// the completion callbacks and `context`.  `None`, and no change, while
    /// another request is in flight.
    pub fn subscribe(&mut self, context: usize, topic: &str, qos: Qos) -> (call: Option<
        SubscribeCall,
    >)
        ensures
            call is Some <==> old(self)@.correlator.can_arm(),
            final(self)@ == old(self)@.after(ClientEvent::Armed),
            call matches Some(c) ==> is_subscribe_call(c, context, topic@, qos),
    {
        if !self.correlator.arm() {
            return None;
        }
        let c_qos: i32 = match qos {
            Qos::FireAndForget => 0,
            Qos::AtLeastOnce => 1,
            Qos::OnceAndOneOnly => 2,
        };
        Some(
            SubscribeCall {
                topic: topic.to_owned(),
                qos: c_qos,
                response: MQTTAsync_responseOptions::new(context),
            },
        )
    }

    /// Second step of every request: takes the code that the transport
    /// returned for the call.  Zero means the request is on its way and the
    /// completion callback will come.  Any other code is the failure of the
    /// operation: the correlator goes idle and nothing is to be waited for.
    pub fn issued(&mut self, op: Operation, return_code: i32) -> (step: Issued)
        ensures
            return_code == 0 ==> step == Issued::Wait,
            return_code != 0 ==> step == Issued::Failed(MqttError::spec_refused(op, return_code)),
            final(self)@ == old(self)@.after(ClientEvent::Issued(return_code)),
    {
        if return_code == 0 {
            Issued::Wait
        } else {
            self.correlator.disarm();
            Issued::Failed(MqttError::refused(op, return_code))
        }
    }

    /// Whether `finished` can tell the result of `op`.
    pub fn settled(&self, op: Operation, connected: bool) -> (b: bool)
        ensures
            b == self@.settled(op, connected),
    {
        let reached = match op {
            Operation::Disconnect => !connected,
            _ => connected,
        };
        match self.correlator.action_result() {
            ActionResult::Unsettled => false,
            ActionResult::Succeeded => reached,
            ActionResult::Failed(_) => true,
        }
    }

    /// Last step of every request, after the wait: the result of `op`, given
    /// the transport's word on whether the session is connected.  That word
    /// decides: where the session is in the state that `op` was to bring
    /// about, the operation has succeeded, whatever the callback reported.
    pub fn finished(&self, op: Operation, connected: bool) -> (r: Result<(), MqttError>)
        requires
            self@.settled(op, connected),
        ensures
            r == self@.result(op, connected),
    {
        let reached = match op {
            Operation::Disconnect => !connected,
            _ => connected,
        };
        if reached {
            Ok(())
        } else {
            match self.correlator.action_result() {
                ActionResult::Failed(e) => Err(MqttError::failed(op, e)),
                _ => Ok(()),
            }
        }
    }

    /// The success callback: records success for the request in flight.
    /// Returns whether a request was in flight and is now to be released: a
    /// callback that meets no armed request changes nothing.
    pub fn action_succeeded(&mut self) -> (release: bool)
        ensures
            release == (old(self)@.correlator == CorrelatorState::Armed),
            final(self)@ == old(self)@.after(ClientEvent::Succeeded),
    {
        self.correlator.complete(Outcome::Success)
    }

    /// The failure callback: records the failure for the request in flight,
    /// with the transport's code or the note that it gave none.  Returns
    /// whether a request was in flight and is now to be released.
    pub fn action_failed(&mut self, code: Option<i32>) -> (release: bool)
        ensures
            release == (old(self)@.correlator == CorrelatorState::Armed),
            final(self)@ == old(self)@.after(ClientEvent::Failed(code)),
    {
        self.correlator.complete(Outcome::Failure(CallbackError::from_detail(code)))
    }

    /// The delivery callback: copies the message out of the delivery and
    /// appends it to the queue.  Returns 1 when the message was queued, and
    /// 0, with no change, for a delivery that is not deliverable.
    pub fn received(&mut self, topic_name: &[u8], topic_len: i32, message: &AsyncMessage) -> (handled:
        i32)
        ensures
            handled == (if deliverable(topic_name@, topic_len, *message) {
                1i32
            } else {
                0i32
            }),
            final(self)@ == old(self)@.after(
                ClientEvent::Received { topic_name: topic_name@, topic_len, message: *message },
            ),
    {
        match Message::from_delivery(topic_name, topic_len, message) {
            Some(msg) => {
                self.messages.push(msg);
                1
            },
            None => 0,
        }
    }

    /// The queue of inbound messages, for a cursor to pull from.
    pub fn messages(&mut self) -> (queue: &mut MessageQueue)
        ensures
            queue@ == old(self)@.messages,
            final(self)@ == (ClientView { messages: final(queue)@, ..old(self)@ }),
    {
        &mut self.messages
    }

    /// The address of the server.
    pub fn address(&self) -> (s: &str)
        ensures
            s@ == self@.address,
    {
        self.address.as_str()
    }

    /// The name under which the client is known to the server.
    pub fn clientid(&self) -> (s: &str)
        ensures
            s@ == self@.clientid,
    {
        self.clientid.as_str()
    }

    /// The persistence mode of the session.
    pub fn persistence(&self) -> (p: PersistenceType)
        ensures
            p == self@.persistence,
    {
        self.persistence
    }

    /// What the pending-action slot shows.
    pub fn action_result(&self) -> (r: ActionResult)
        ensures
            r == self@.correlator.action_result(),
    {
        self.correlator.action_result()
    }
}

} // verus!
