//! The error values of the client: data that a caller can branch on.

use crate::text::{push_signed_decimal, signed_decimal};
use vstd::prelude::*;

verus! {

/// What a failure callback of the transport reported.
#[derive(Debug, Clone, Copy, PartialEq, Eq, Structural)]
pub enum CallbackError {
    /// The transport's numeric failure code.
    Response(i32),
    /// The transport gave no failure detail.
    NullPtr,
}

impl CallbackError {
    /// The error for the detail that a failure callback carried.
    pub open spec fn spec_from_detail(code: Option<i32>) -> CallbackError {
        match code {
            Some(c) => CallbackError::Response(c),
            None => CallbackError::NullPtr,
        }
    }

    /// The error for the detail that a failure callback carried: the code,
    /// or the note that there was none.
    #[verifier::when_used_as_spec(spec_from_detail)]
    pub fn from_detail(code: Option<i32>) -> (e: CallbackError)
        ensures
            e == CallbackError::spec_from_detail(code),
    {
        match code {
            Some(c) => CallbackError::Response(c),
            None => CallbackError::NullPtr,
        }
    }
}

/// Why the transport refused a connect at once.
#[derive(Debug, Clone, Copy, PartialEq, Eq, Structural)]
pub enum ConnectErrReturnCode {
    UnacceptableProtocol,
    IdentifierRejected,
    ServerUnavailable,
    BadUsernameOrPassword,
    NotAuthorized,
    Reserved,
}

impl ConnectErrReturnCode {
    /// The reason that the transport's number `i` stands for.
    pub open spec fn spec_from_int(i: i32) -> ConnectErrReturnCode {
        if i == 1 {
            ConnectErrReturnCode::UnacceptableProtocol
        } else if i == 2 {
            ConnectErrReturnCode::IdentifierRejected
        } else if i == 3 {
            ConnectErrReturnCode::ServerUnavailable
        } else if i == 4 {
            ConnectErrReturnCode::BadUsernameOrPassword
        } else if i == 5 {
            ConnectErrReturnCode::NotAuthorized
        } else {
            ConnectErrReturnCode::Reserved
        }
    }

    /// The number that names this reason.
    pub open spec fn spec_code(self) -> i32 {
        match self {
            ConnectErrReturnCode::UnacceptableProtocol => 1,
            ConnectErrReturnCode::IdentifierRejected => 2,
            ConnectErrReturnCode::ServerUnavailable => 3,
            ConnectErrReturnCode::BadUsernameOrPassword => 4,
            ConnectErrReturnCode::NotAuthorized => 5,
            ConnectErrReturnCode::Reserved => 6,
        }
    }

    /// The reason that the transport's number `i` stands for: `1` to `5`
    /// are the known reasons, every other number is `Reserved`.
    #[verifier::when_used_as_spec(spec_from_int)]
    pub fn from_int(i: i32) -> (r: ConnectErrReturnCode)
        ensures
            r == ConnectErrReturnCode::spec_from_int(i),
    {
        if i == 1 {
            ConnectErrReturnCode::UnacceptableProtocol
        } else if i == 2 {
            ConnectErrReturnCode::IdentifierRejected
        } else if i == 3 {
            ConnectErrReturnCode::ServerUnavailable
        } else if i == 4 {
            ConnectErrReturnCode::BadUsernameOrPassword
        } else if i == 5 {
            ConnectErrReturnCode::NotAuthorized
        } else {
            ConnectErrReturnCode::Reserved
        }
    }

    /// The number that names this reason.
    #[verifier::when_used_as_spec(spec_code)]
    pub fn code(self) -> (c: i32)
        ensures
            c == self.spec_code(),
    {
        match self {
            ConnectErrReturnCode::UnacceptableProtocol => 1,
            ConnectErrReturnCode::IdentifierRejected => 2,
            ConnectErrReturnCode::ServerUnavailable => 3,
            ConnectErrReturnCode::BadUsernameOrPassword => 4,
            ConnectErrReturnCode::NotAuthorized => 5,
            ConnectErrReturnCode::Reserved => 6,
        }
    }
}

/// Every reason is found again from its number.
pub proof fn lemma_connect_code_round_trip(r: ConnectErrReturnCode)
    ensures
        1 <= r.spec_code() <= 6,
        ConnectErrReturnCode::spec_from_int(r.spec_code()) == r,
{
}

/// Why a connect failed.
#[derive(Debug, Clone, Copy, PartialEq, Eq, Structural)]
pub enum ConnectError {
    /// The transport refused the request at once.
    ReturnCode(ConnectErrReturnCode),
    /// The failure callback came with this code.
    CallbackResponse(i32),
    /// The failure callback came without detail.
    CallbackNullPtr,
}

/// Why a publish or a subscribe failed.
#[derive(Debug, Clone, Copy, PartialEq, Eq, Structural)]
pub enum CommandError {
    /// The transport refused the request at once, with this code.
    ReturnCode(i32),
    /// The failure callback came with this code.
    CallbackResponse(i32),
    /// The failure callback came without detail.
    CallbackNullPtr,
}

/// Why a disconnect failed.
#[derive(Debug, Clone, Copy, PartialEq, Eq, Structural)]
pub enum DisconnectError {
    /// The transport refused the request at once, with this code.
    ReturnCode(i32),
    /// The failure callback came with this code.
    CallbackResponse(i32),
    /// The failure callback came without detail.
    CallbackNullPtr,
}

/// Every failure that an operation of the client can report.
#[derive(Debug, Clone, Copy, PartialEq, Eq, Structural)]
pub enum MqttError {
    /// The transport refused to create the session, with this code.
    Create(i32),
    Connect(ConnectError),
    Disconnect(DisconnectError),
    Subscribe(CommandError),
    Send(CommandError),
}

/// The four requests that are answered through a completion callback.
#[derive(Debug, Clone, Copy, PartialEq, Eq, Structural)]
pub enum Operation {
    Connect,
    Disconnect,
    Send,
    Subscribe,
}

impl MqttError {
    /// The error of `op` when the transport refused the request at once
    /// with `code`.
    pub open spec fn spec_refused(op: Operation, code: i32) -> MqttError {
        match op {
            Operation::Connect => MqttError::Connect(
                ConnectError::ReturnCode(ConnectErrReturnCode::spec_from_int(code)),
            ),
            Operation::Disconnect => MqttError::Disconnect(DisconnectError::ReturnCode(code)),
            Operation::Send => MqttError::Send(CommandError::ReturnCode(code)),
            Operation::Subscribe => MqttError::Subscribe(CommandError::ReturnCode(code)),
        }
    }

    /// The error of `op` when its failure callback reported `cause`.
    pub open spec fn spec_failed(op: Operation, cause: CallbackError) -> MqttError {
        match (op, cause) {
            (Operation::Connect, CallbackError::Response(r)) => MqttError::Connect(
                ConnectError::CallbackResponse(r),
            ),
            (Operation::Connect, CallbackError::NullPtr) => MqttError::Connect(
                ConnectError::CallbackNullPtr,
            ),
            (Operation::Disconnect, CallbackError::Response(r)) => MqttError::Disconnect(
                DisconnectError::CallbackResponse(r),
            ),
            (Operation::Disconnect, CallbackError::NullPtr) => MqttError::Disconnect(
                DisconnectError::CallbackNullPtr,
            ),
            (Operation::Send, CallbackError::Response(r)) => MqttError::Send(
                CommandError::CallbackResponse(r),
            ),
            (Operation::Send, CallbackError::NullPtr) => MqttError::Send(
                CommandError::CallbackNullPtr,
            ),
            (Operation::Subscribe, CallbackError::Response(r)) => MqttError::Subscribe(
                CommandError::CallbackResponse(r),
            ),
            (Operation::Subscribe, CallbackError::NullPtr) => MqttError::Subscribe(
                CommandError::CallbackNullPtr,
            ),
        }
    }

    /// The error of `op` when the transport refused the request at once
    /// with `code`.
    #[verifier::when_used_as_spec(spec_refused)]
    pub fn refused(op: Operation, code: i32) -> (e: MqttError)
        ensures
            e == MqttError::spec_refused(op, code),
    {
        match op {
            Operation::Connect => MqttError::Connect(
                ConnectError::ReturnCode(ConnectErrReturnCode::from_int(code)),
            ),
            Operation::Disconnect => MqttError::Disconnect(DisconnectError::ReturnCode(code)),
            Operation::Send => MqttError::Send(CommandError::ReturnCode(code)),
            Operation::Subscribe => MqttError::Subscribe(CommandError::ReturnCode(code)),
        }
    }

    /// The error of `op` when its failure callback reported `cause`.
    #[verifier::when_used_as_spec(spec_failed)]
    pub fn failed(op: Operation, cause: CallbackError) -> (e: MqttError)
        ensures
            e == MqttError::spec_failed(op, cause),
    {
        match op {
            Operation::Connect => match cause {
                CallbackError::Response(r) => MqttError::Connect(ConnectError::CallbackResponse(r)),
                CallbackError::NullPtr => MqttError::Connect(ConnectError::CallbackNullPtr),
            },
            Operation::Disconnect => match cause {
                CallbackError::Response(r) => MqttError::Disconnect(
                    DisconnectError::CallbackResponse(r),
                ),
                CallbackError::NullPtr => MqttError::Disconnect(DisconnectError::CallbackNullPtr),
            },
            Operation::Send => match cause {
                CallbackError::Response(r) => MqttError::Send(CommandError::CallbackResponse(r)),
                CallbackError::NullPtr => MqttError::Send(CommandError::CallbackNullPtr),
            },
            Operation::Subscribe => match cause {
                CallbackError::Response(r) => MqttError::Subscribe(
                    CommandError::CallbackResponse(r),
                ),
                CallbackError::NullPtr => MqttError::Subscribe(CommandError::CallbackNullPtr),
            },
        }
    }

    /// A fixed sentence for the kind of failure.
    pub fn description(&self) -> (d: &'static str)
        ensures
            d@ == match *self {
                MqttError::Create(_) => "Mqtt creation failed"@,
                MqttError::Connect(_) => "Mqtt connect failed"@,
                MqttError::Disconnect(_) => "Mqtt disconnect failed"@,
                MqttError::Subscribe(_) => "Mqtt subscribe failed"@,
                MqttError::Send(_) => "Mqtt send failed"@,
            },
    {
        match *self {
            MqttError::Create(_) => "Mqtt creation failed",
            MqttError::Connect(_) => "Mqtt connect failed",
            MqttError::Disconnect(_) => "Mqtt disconnect failed",
            MqttError::Subscribe(_) => "Mqtt subscribe failed",
            MqttError::Send(_) => "Mqtt send failed",
        }
    }
}

impl ConnectErrReturnCode {
    /// The name of this reason.
    pub open spec fn spec_name(self) -> Seq<char> {
        match self {
            ConnectErrReturnCode::UnacceptableProtocol => "UnacceptableProtocol"@,
            ConnectErrReturnCode::IdentifierRejected => "IdentifierRejected"@,
            ConnectErrReturnCode::ServerUnavailable => "ServerUnavailable"@,
            ConnectErrReturnCode::BadUsernameOrPassword => "BadUsernameOrPassword"@,
            ConnectErrReturnCode::NotAuthorized => "NotAuthorized"@,
            ConnectErrReturnCode::Reserved => "Reserved"@,
        }
    }

    /// The name of this reason.
    pub fn name(self) -> (n: &'static str)
        ensures
            n@ == self.spec_name(),
    {
        match self {
            ConnectErrReturnCode::UnacceptableProtocol => "UnacceptableProtocol",
            ConnectErrReturnCode::IdentifierRejected => "IdentifierRejected",
            ConnectErrReturnCode::ServerUnavailable => "ServerUnavailable",
            ConnectErrReturnCode::BadUsernameOrPassword => "BadUsernameOrPassword",
            ConnectErrReturnCode::NotAuthorized => "NotAuthorized",
            ConnectErrReturnCode::Reserved => "Reserved",
        }
    }
}

/// The text of a variant `name` that holds the number `x`.
pub open spec fn with_number(name: Seq<char>, x: i32) -> Seq<char> {
    name + "("@ + signed_decimal(x as int) + ")"@
}

/// Appends to `out` the text of a variant `name` that holds the number `x`.
fn push_with_number(out: &mut String, name: &str, x: i32)
    ensures
        final(out)@ == old(out)@ + with_number(name@, x),
{
    out.append(name);
    out.append("(");
    push_signed_decimal(out, x);
    out.append(")");
    assert(out@ =~= old(out)@ + with_number(name@, x));
}

impl ConnectError {
    /// This error as text: the variant, and in brackets what it holds.
    pub open spec fn spec_text(self) -> Seq<char> {
        match self {
            ConnectError::ReturnCode(c) => "ReturnCode"@ + "("@ + c.spec_name() + ")"@,
            ConnectError::CallbackResponse(r) => with_number("CallbackResponse"@, r),
            ConnectError::CallbackNullPtr => "CallbackNullPtr"@,
        }
    }

    /// Appends this error as text to `out`.
    pub fn push_text(&self, out: &mut String)
        ensures
            final(out)@ == old(out)@ + self.spec_text(),
    {
        match *self {
            ConnectError::ReturnCode(c) => {
                out.append("ReturnCode");
                out.append("(");
                out.append(c.name());
                out.append(")");
            },
            ConnectError::CallbackResponse(r) => push_with_number(out, "CallbackResponse", r),
            ConnectError::CallbackNullPtr => out.append("CallbackNullPtr"),
        }
        assert(out@ =~= old(out)@ + self.spec_text());
    }
}

impl CommandError {
    /// This error as text: the variant, and in brackets what it holds.
    pub open spec fn spec_text(self) -> Seq<char> {
        match self {
            CommandError::ReturnCode(c) => with_number("ReturnCode"@, c),
            CommandError::CallbackResponse(r) => with_number("CallbackResponse"@, r),
            CommandError::CallbackNullPtr => "CallbackNullPtr"@,
        }
    }

    /// Appends this error as text to `out`.
    pub fn push_text(&self, out: &mut String)
        ensures
            final(out)@ == old(out)@ + self.spec_text(),
    {
        match *self {
            CommandError::ReturnCode(c) => push_with_number(out, "ReturnCode", c),
            CommandError::CallbackResponse(r) => push_with_number(out, "CallbackResponse", r),
            CommandError::CallbackNullPtr => out.append("CallbackNullPtr"),
        }
    }
}

impl DisconnectError {
    /// This error as text: the variant, and in brackets what it holds.
    pub open spec fn spec_text(self) -> Seq<char> {
        match self {
            DisconnectError::ReturnCode(c) => with_number("ReturnCode"@, c),
            DisconnectError::CallbackResponse(r) => with_number("CallbackResponse"@, r),
            DisconnectError::CallbackNullPtr => "CallbackNullPtr"@,
        }
    }

    /// Appends this error as text to `out`.
    pub fn push_text(&self, out: &mut String)
        ensures
            final(out)@ == old(out)@ + self.spec_text(),
    {
        match *self {
            DisconnectError::ReturnCode(c) => push_with_number(out, "ReturnCode", c),
            DisconnectError::CallbackResponse(r) => push_with_number(out, "CallbackResponse", r),
            DisconnectError::CallbackNullPtr => out.append("CallbackNullPtr"),
        }
    }
}

impl MqttError {
    /// This error as text: the type, the variant, and in brackets the
    /// cause, as in `MqttError::Send(CallbackResponse(7))`.
    pub open spec fn spec_text(self) -> Seq<char> {
        match self {
            MqttError::Create(x) => with_number("MqttError::Create"@, x),
            MqttError::Connect(e) => "MqttError::Connect("@ + e.spec_text() + ")"@,
            MqttError::Disconnect(e) => "MqttError::Disconnect("@ + e.spec_text() + ")"@,
            MqttError::Subscribe(e) => "MqttError::Subscribe("@ + e.spec_text() + ")"@,
            MqttError::Send(e) => "MqttError::Send("@ + e.spec_text() + ")"@,
        }
    }

    /// This error as text: the type, the variant, and in brackets the
    /// cause, as in `MqttError::Send(CallbackResponse(7))`.
    pub fn to_string(&self) -> (s: String)
        ensures
            s@ == self.spec_text(),
    {
        let mut out = String::new();
        match *self {
            MqttError::Create(x) => push_with_number(&mut out, "MqttError::Create", x),
            MqttError::Connect(e) => {
                out.append("MqttError::Connect(");
                e.push_text(&mut out);
                out.append(")");
            },
            MqttError::Disconnect(e) => {
                out.append("MqttError::Disconnect(");
                e.push_text(&mut out);
                out.append(")");
            },
            MqttError::Subscribe(e) => {
                out.append("MqttError::Subscribe(");
                e.push_text(&mut out);
                out.append(")");
            },
            MqttError::Send(e) => {
                out.append("MqttError::Send(");
                e.push_text(&mut out);
                out.append(")");
            },
        }
        assert(out@ =~= self.spec_text());
        out
    }
}

} // verus!
