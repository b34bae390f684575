//! Option values of the client and the option blocks handed to the transport.

use vstd::prelude::*;

verus! {

/// How the transport persists in-flight state of a session.
#[derive(Debug, Clone, Copy, PartialEq, Eq, Structural)]
pub enum PersistenceType {
    Default,
    Nothing,
    User,
}

impl PersistenceType {
    /// The number by which the transport knows this persistence mode.
    pub open spec fn spec_code(self) -> i32 {
        match self {
            PersistenceType::Default => 0,
            PersistenceType::Nothing => 1,
            PersistenceType::User => 2,
        }
    }

    /// The number by which the transport knows this persistence mode.
    #[verifier::when_used_as_spec(spec_code)]
    pub fn code(self) -> (c: i32)
        ensures
            c == self.spec_code(),
    {
        match self {
            PersistenceType::Default => 0,
            PersistenceType::Nothing => 1,
            PersistenceType::User => 2,
        }
    }
}

/// Delivery guarantee of a published or received message.
#[derive(Debug, Clone, Copy, PartialEq, Eq, Structural)]
pub enum Qos {
    FireAndForget,
    AtLeastOnce,
    OnceAndOneOnly,
}

impl Qos {
    /// The level that the transport's number `i` stands for, if any.
    pub open spec fn spec_try_from_int(i: i32) -> Option<Qos> {
        if i == 0 {
            Some(Qos::FireAndForget)
        } else if i == 1 {
            Some(Qos::AtLeastOnce)
        } else if i == 2 {
            Some(Qos::OnceAndOneOnly)
        } else {
            None
        }
    }

    /// The number by which the transport knows this level.
    pub open spec fn spec_code(self) -> i32 {
        match self {
            Qos::FireAndForget => 0,
            Qos::AtLeastOnce => 1,
            Qos::OnceAndOneOnly => 2,
        }
    }

    /// The level that the transport's number `i` stands for; `None` for a
    /// number outside `0..=2`.
    #[verifier::when_used_as_spec(spec_try_from_int)]
    pub fn try_from_int(i: i32) -> (q: Option<Qos>)
        ensures
            q == Qos::spec_try_from_int(i),
    {
        if i == 0 {
            Some(Qos::FireAndForget)
        } else if i == 1 {
            Some(Qos::AtLeastOnce)
        } else if i == 2 {
            Some(Qos::OnceAndOneOnly)
        } else {
            None
        }
    }

    /// The level that the transport's number `i` stands for.
    pub fn from_int(i: i32) -> (q: Qos)
        requires
            0 <= i <= 2,
        ensures
            Some(q) == Qos::spec_try_from_int(i),
            q.spec_code() == i,
    {
        if i == 0 {
            Qos::FireAndForget
        } else if i == 1 {
            Qos::AtLeastOnce
        } else {
            Qos::OnceAndOneOnly
        }
    }

    /// The number by which the transport knows this level.
    #[verifier::when_used_as_spec(spec_code)]
    pub fn code(self) -> (c: i32)
        ensures
            c == self.spec_code(),
    {
        match self {
            Qos::FireAndForget => 0,
            Qos::AtLeastOnce => 1,
            Qos::OnceAndOneOnly => 2,
        }
    }
}

/// Every level is found again from its number.
pub proof fn lemma_qos_code_round_trip(q: Qos)
    ensures
        0 <= q.spec_code() <= 2,
        Qos::spec_try_from_int(q.spec_code()) == Some(q),
{
}

/// What a caller may choose for a connect.
#[derive(Debug, Clone, Copy, PartialEq, Eq, Structural)]
pub struct AsyncConnectOptions {
    pub keep_alive_interval: i32,
    pub cleansession: i32,
    pub max_in_flight: i32,
    pub connect_timeout: i32,
    pub retry_interval: i32,
}

impl AsyncConnectOptions {
    /// The documented defaults: keep-alive 20 s, clean session, 10 messages
    /// in flight, 30 s connect timeout, no retry interval.
    pub fn new() -> (o: AsyncConnectOptions)
        ensures
            o == (AsyncConnectOptions {
                keep_alive_interval: 20,
                cleansession: 1,
                max_in_flight: 10,
                connect_timeout: 30,
                retry_interval: 0,
            }),
    {
        AsyncConnectOptions {
            keep_alive_interval: 20,
            cleansession: 1,
            max_in_flight: 10,
            connect_timeout: 30,
            retry_interval: 0,
        }
    }
}

/// What a caller may choose for a disconnect.
#[derive(Debug, Clone, Copy, PartialEq, Eq, Structural)]
pub struct AsyncDisconnectOptions {
    /// Milliseconds the transport may take to finish in-flight work.
    pub timeout: i32,
}

impl AsyncDisconnectOptions {
    /// No grace period.
    pub fn new() -> (o: AsyncDisconnectOptions)
        ensures
            o == (AsyncDisconnectOptions { timeout: 0 }),
    {
        AsyncDisconnectOptions { timeout: 0 }
    }
}

/// The tag `MQTC` that opens a connect option block.
pub open spec fn connect_struct_id() -> Seq<i8> {
    seq![77i8, 81i8, 84i8, 67i8]
}

/// The tag `MQTD` that opens a disconnect option block.
pub open spec fn disconnect_struct_id() -> Seq<i8> {
    seq![77i8, 81i8, 84i8, 68i8]
}

/// The tag `MQTR` that opens a response option block.
pub open spec fn response_struct_id() -> Seq<i8> {
    seq![77i8, 81i8, 84i8, 82i8]
}

/// The connect option block of the transport, without its pointers: the
/// will, the credentials, the TLS options and the server list are always
/// absent here.
#[allow(non_camel_case_types)]
#[derive(Debug, Clone, Copy, PartialEq, Eq)]
pub struct MQTTAsync_connectOptions {
    pub struct_id: [i8; 4],
    pub struct_version: i32,
    pub keep_alive_interval: i32,
    pub cleansession: i32,
    pub max_inflight: i32,
    pub connect_timeout: i32,
    pub retry_interval: i32,
    pub server_uri_count: i32,
    pub mqtt_version: i32,
    /// Whether the completion callbacks are to be registered.
    pub callbacks: bool,
    /// The token that the transport hands back to the callbacks.
    pub context: Option<usize>,
}

impl MQTTAsync_connectOptions {
    /// The transport's own defaults, with no callback and no context.
    pub fn new() -> (o: MQTTAsync_connectOptions)
        ensures
            o.struct_id@ == connect_struct_id(),
            o.struct_version == 3,
            o.keep_alive_interval == 60,
            o.cleansession == 1,
            o.max_inflight == 10,
            o.connect_timeout == 30,
            o.retry_interval == 0,
            o.server_uri_count == 0,
            o.mqtt_version == 0,
            !o.callbacks,
            o.context is None,
    {
        MQTTAsync_connectOptions {
            struct_id: [77, 81, 84, 67],
            struct_version: 3,
            keep_alive_interval: 60,
            cleansession: 1,
            max_inflight: 10,
            connect_timeout: 30,
            retry_interval: 0,
            server_uri_count: 0,
            mqtt_version: 0,
            callbacks: false,
            context: None,
        }
    }
}

/// The disconnect option block of the transport.
#[allow(non_camel_case_types)]
#[derive(Debug, Clone, Copy, PartialEq, Eq)]
pub struct MQTTAsync_disconnectOptions {
    pub struct_id: [i8; 4],
    pub struct_version: i32,
    pub timeout: i32,
    /// Whether the completion callbacks are to be registered.
    pub callbacks: bool,
    /// The token that the transport hands back to the callbacks.
    pub context: Option<usize>,
}

impl MQTTAsync_disconnectOptions {
    /// The transport's own defaults, with no callback and no context.
    pub fn new() -> (o: MQTTAsync_disconnectOptions)
        ensures
            o.struct_id@ == disconnect_struct_id(),
            o.struct_version == 0,
            o.timeout == 0,
            !o.callbacks,
            o.context is None,
    {
        MQTTAsync_disconnectOptions {
            struct_id: [77, 81, 84, 68],
            struct_version: 0,
            timeout: 0,
            callbacks: false,
            context: None,
        }
    }
}

/// The response option block that goes with a publish or a subscribe.
#[allow(non_camel_case_types)]
#[derive(Debug, Clone, Copy, PartialEq, Eq)]
pub struct MQTTAsync_responseOptions {
    pub struct_id: [i8; 4],
    pub struct_version: i32,
    /// Whether the completion callbacks are to be registered.
    pub callbacks: bool,
    /// The token that the transport hands back to the callbacks.
    pub context: Option<usize>,
    pub token: i32,
}

impl MQTTAsync_responseOptions {
    /// The block that asks for both completion callbacks under `context`.
    pub fn new(context: usize) -> (o: MQTTAsync_responseOptions)
        ensures
            o.struct_id@ == response_struct_id(),
            o.struct_version == 0,
            o.callbacks,
            o.context == Some(context),
            o.token == 0,
    {
        MQTTAsync_responseOptions {
            struct_id: [77, 81, 84, 82],
            struct_version: 0,
            callbacks: true,
            context: Some(context),
            token: 0,
        }
    }
}

} // verus!
