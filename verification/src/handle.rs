//! The handle that an application holds for a client.
//!
//! The state of a client stays in its slot of the arena.  The handle is only
//! the context of that slot: it can be moved about freely, and every request
//! made through it goes to the transport under the same context.

use crate::client::{
    is_connect_call, is_disconnect_call, is_send_call, is_subscribe_call, ClientEvent,
    ClientView, DisconnectStep, ImmovableClient, Issued, SendCall, SubscribeCall,
};
use crate::context::{after, live, well_formed, ArenaOp, ClientArena};
use crate::error::{MqttError, Operation};
use crate::iterator::AsyncClientIntoIterator;
use crate::options::{
    AsyncConnectOptions, AsyncDisconnectOptions, MQTTAsync_connectOptions, PersistenceType, Qos,
};
use vstd::prelude::*;

verus! {

/// The handle of one client.
#[derive(Debug, PartialEq, Eq)]
pub struct AsyncClient {
    context: usize,
}

/// Whether `context` names a client for which a request can be armed.
pub open spec fn ready(arena: Seq<Option<ClientView>>, context: usize) -> bool {
    live(arena, context) && arena[context as int]->0.correlator.can_arm()
}

impl AsyncClient {
    /// The context under which the transport reports back for this client.
    pub closed spec fn spec_context(&self) -> usize {
        self.context
    }

    /// The context under which the transport reports back for this client.
    /// It is the same at every call.
    #[verifier::when_used_as_spec(spec_context)]
    pub fn context(&self) -> (c: usize)
        ensures
            c == self.context(),
    {
        self.context
    }

    /// A client for the server at `address` under the name `clientid`,
    /// given the code that the transport returned when it was asked to
    /// create the session.  Zero puts a fresh client into the arena and
    /// returns its handle, whose context is the number of the new slot; any
    /// other code is the error, and the arena stays as it is.
    pub fn new(
        arena: &mut ClientArena,
        address: &str,
        clientid: &str,
        persistence: PersistenceType,
        return_code: i32,
    ) -> (r: Result<AsyncClient, MqttError>)
        ensures
            return_code != 0 ==> r is Err && r->Err_0 == MqttError::Create(return_code),
            return_code != 0 ==> final(arena)@ == old(arena)@,
            return_code == 0 ==> r is Ok && r->Ok_0.context() == old(arena)@.len(),
            return_code == 0 ==> final(arena)@ == old(arena)@.push(
                Some(ClientView::fresh(address@, clientid@, persistence)),
            ),
            return_code == 0 && well_formed(old(arena)@) ==> r->Ok_0.context() != 0,
            well_formed(old(arena)@) ==> well_formed(final(arena)@),
    {
        let inner = ImmovableClient::new(address, clientid, persistence);
        match inner.create(return_code) {
            Ok(()) => Ok(AsyncClient { context: arena.allocate(inner) }),
            Err(e) => Err(e),
        }
    }

    /// Reads the transport's answer to "is this session connected": 1 is
    /// yes, every other number is no.
    pub fn is_connected(answer: i32) -> (connected: bool)
        ensures
            connected == (answer == 1),
    {
        ImmovableClient::is_connected(answer)
    }

    /// First step of a connect: see [`ImmovableClient::connect`].  `None`,
    /// and no change, while another request is in flight or when the arena
    /// does not hold this client.
    pub fn connect(&self, arena: &mut ClientArena, options: &AsyncConnectOptions) -> (call: Option<
        MQTTAsync_connectOptions,
    >)
        ensures
            call is Some <==> ready(old(arena)@, self.context()),
            final(arena)@ == after(old(arena)@, ArenaOp::Route(self.context(), ClientEvent::Armed)),
            call matches Some(o) ==> is_connect_call(o, self.context(), *options),
    {
        match arena.client_mut(self.context) {
            Some(inner) => inner.connect(self.context, options),
            None => None,
        }
    }

    /// First step of a disconnect: see [`ImmovableClient::disconnect`].
    /// Refused, with no change, when the session is connected and the arena
    /// does not hold this client.
    pub fn disconnect(
        &self,
        arena: &mut ClientArena,
        connected: bool,
        options: &AsyncDisconnectOptions,
    ) -> (step: DisconnectStep)
        ensures
            !connected ==> step == DisconnectStep::NotConnected,
            connected && !ready(old(arena)@, self.context()) ==> step == DisconnectStep::Refused,
            connected && ready(old(arena)@, self.context()) ==> step is Call,
            step is Call ==> final(arena)@ == after(
                old(arena)@,
                ArenaOp::Route(self.context(), ClientEvent::Armed),
            ),
            !(step is Call) ==> final(arena)@ == old(arena)@,
            step matches DisconnectStep::Call(o) ==> is_disconnect_call(
                o,
                self.context(),
                *options,
            ),
    {
        if !connected {
            return DisconnectStep::NotConnected;
        }
        match arena.client_mut(self.context) {
            Some(inner) => inner.disconnect(self.context, connected, options),
            None => DisconnectStep::Refused,
        }
    }

    /// First step of a publish: see [`ImmovableClient::send`].  `None`, and
    /// no change, while another request is in flight or when the arena does
    /// not hold this client.
    pub fn send(&self, arena: &mut ClientArena, data: &[u8], topic: &str, qos: Qos) -> (call:
        Option<SendCall>)
        requires
            data@.len() <= i32::MAX,
        ensures
            call is Some <==> ready(old(arena)@, self.context()),
            final(arena)@ == after(old(arena)@, ArenaOp::Route(self.context(), ClientEvent::Armed)),
            call matches Some(c) ==> is_send_call(c, self.context(), data@, topic@, qos),
    {
        match arena.client_mut(self.context) {
            Some(inner) => inner.send(self.context, data, topic, qos),
            None => None,
        }
    }

    /// First step of a subscribe: see [`ImmovableClient::subscribe`].
    /// `None`, and no change, while another request is in flight or when the
    /// arena does not hold this client.
    pub fn subscribe(&self, arena: &mut ClientArena, topic: &str, qos: Qos) -> (call: Option<
        SubscribeCall,
    >)
        ensures
            call is Some <==> ready(old(arena)@, self.context()),
            final(arena)@ == after(old(arena)@, ArenaOp::Route(self.context(), ClientEvent::Armed)),
            call matches Some(c) ==> is_subscribe_call(c, self.context(), topic@, qos),
    {
        match arena.client_mut(self.context) {
            Some(inner) => inner.subscribe(self.context, topic, qos),
            None => None,
        }
    }

    /// Second step of every request: see [`ImmovableClient::issued`].  What
    /// it returns depends on `op` and `return_code` alone.
    pub fn issued(&self, arena: &mut ClientArena, op: Operation, return_code: i32) -> (step: Issued)
        ensures
            return_code == 0 ==> step == Issued::Wait,
            return_code != 0 ==> step == Issued::Failed(MqttError::spec_refused(op, return_code)),
            final(arena)@ == after(
                old(arena)@,
                ArenaOp::Route(self.context(), ClientEvent::Issued(return_code)),
            ),
    {
        match arena.client_mut(self.context) {
            Some(inner) => inner.issued(op, return_code),
            None => if return_code == 0 {
                Issued::Wait
            } else {
                Issued::Failed(MqttError::refused(op, return_code))
            },
        }
    }

    /// Whether `finished` can tell the result of `op`.
    pub fn settled(&self, arena: &ClientArena, op: Operation, connected: bool) -> (b: bool)
        ensures
            b == (live(arena@, self.context()) && arena@[self.context() as int]->0.settled(
                op,
                connected,
            )),
    {
        match arena.client(self.context) {
            Some(inner) => inner.settled(op, connected),
            None => false,
        }
    }

    /// Last step of every request: see [`ImmovableClient::finished`].
    pub fn finished(&self, arena: &ClientArena, op: Operation, connected: bool) -> (r: Result<
        (),
        MqttError,
    >)
        requires
            live(arena@, self.context()),
            arena@[self.context() as int]->0.settled(op, connected),
        ensures
            r == arena@[self.context() as int]->0.result(op, connected),
    {
        match arena.client(self.context) {
            Some(inner) => inner.finished(op, connected),
            None => Ok(()),
        }
    }

    /// A cursor over the messages of this client whose pulls wait at most
    /// `timeout_ms` milliseconds, or without limit for `None`.
    pub fn messages(&self, timeout_ms: Option<u32>) -> (cursor: AsyncClientIntoIterator)
        ensures
            cursor.timeout_ms() == timeout_ms,
    {
        AsyncClientIntoIterator::new(timeout_ms)
    }

    /// Ends the life of the client: its slot is emptied for good, and what
    /// the transport reports under its context from now on is dropped.
    pub fn release(self, arena: &mut ClientArena) -> (inner: Option<ImmovableClient>)
        ensures
            inner is Some <==> live(old(arena)@, self.context()),
            inner matches Some(c) ==> Some(c@) == old(arena)@[self.context() as int],
            final(arena)@ == after(old(arena)@, ArenaOp::Release(self.context())),
    {
        arena.release(self.context)
    }
}

} // verus!
