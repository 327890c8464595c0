//! The server side of one SOCKS5 connection, as a state machine.
//!
//! The caller owns the client stream. It hands each chunk of bytes it reads
//! to [`Session::on_data`] and the outcome of each outbound connect to
//! [`Session::on_connect`], and carries out the [`Action`] that comes back.
use vstd::prelude::*;
use crate::bytes::{append_bytes, copy_range};
use crate::socks::{
    encode_reply, failure_code, failure_code_spec, failure_reply, failure_reply_spec,
    greeting_complete, greeting_len, greeting_offers, host_bytes, method_reply,
    method_reply_spec, parse_greeting, parse_request, reply_spec, request_bad_version,
    request_complete, request_len, request_port, request_unknown_address, ConnectFailure,
    Destination, Greeting, Request, CMD_CONNECT, METHOD_NO_AUTH, REPLY_ADDRESS_NOT_SUPPORTED,
    REPLY_COMMAND_NOT_SUPPORTED, REPLY_SUCCEEDED,
};

verus! {

/// The phases of a SOCKS5 session.
#[derive(PartialEq, Eq, Structural, Clone, Copy, Debug)]
pub enum Phase {
    AwaitGreeting,
    AwaitRequest,
    Connecting,
    Connected,
    Closed,
}

/// What the caller does next.
#[derive(Clone, Debug, PartialEq, Eq)]
pub enum Action {
    /// Read more bytes from the client and hand them to `on_data`.
    ReadMore,
    /// Write these bytes to the client, then call `on_data` with no bytes:
    /// the client may already have sent what comes next.
    Send(Vec<u8>),
    /// Write these bytes to the client, then close it.
    SendAndClose(Vec<u8>),
    /// Close the client stream.
    Close,
    /// Open a connection to this destination and hand the outcome to
    /// `on_connect`.
    Connect(Destination),
    /// Write `reply` to the client and `early` (bytes the client sent after
    /// its request) to the destination, then relay between the two streams
    /// and call `close` when the relay ends.
    Relay { reply: Vec<u8>, early: Vec<u8> },
    /// Nothing to do in this phase.
    Idle,
}

/// The state of one session: its phase and the client bytes received and
/// not yet consumed.
pub struct Session {
    phase: Phase,
    pending: Vec<u8>,
}

/// The abstract state of a session.
pub struct SessionView {
    pub phase: Phase,
    pub pending: Seq<u8>,
}

impl View for Session {
    type V = SessionView;

    closed spec fn view(&self) -> SessionView {
        SessionView { phase: self.phase, pending: self.pending@ }
    }
}

/// `a` and `t` are what `on_data` gives when `data` arrives in state `s`.
pub open spec fn data_step(s: SessionView, data: Seq<u8>, a: Action, t: SessionView) -> bool {
    let b = s.pending + data;
    match s.phase {
        Phase::AwaitGreeting => if b.len() > 0 && b[0] != crate::socks::SOCKS_VERSION {
            a is Close && t.phase == Phase::Closed
        } else if !greeting_complete(b) {
            a is ReadMore && t == SessionView { phase: Phase::AwaitGreeting, pending: b }
        } else if !greeting_offers(b, METHOD_NO_AUTH) {
            a is SendAndClose && a->SendAndClose_0@ == method_reply_spec(false) && t.phase
                == Phase::Closed
        } else {
            a is Send && a->Send_0@ == method_reply_spec(true) && t == SessionView {
                phase: Phase::AwaitRequest,
                pending: b.subrange(greeting_len(b), b.len() as int),
            }
        },
        Phase::AwaitRequest => if request_bad_version(b) {
            a is Close && t.phase == Phase::Closed
        } else if request_unknown_address(b) {
            a is SendAndClose && a->SendAndClose_0@ == failure_reply_spec(
                REPLY_ADDRESS_NOT_SUPPORTED,
            ) && t.phase == Phase::Closed
        } else if !request_complete(b) {
            a is ReadMore && t == SessionView { phase: Phase::AwaitRequest, pending: b }
        } else if b[1] != CMD_CONNECT {
            a is SendAndClose && a->SendAndClose_0@ == failure_reply_spec(
                REPLY_COMMAND_NOT_SUPPORTED,
            ) && t.phase == Phase::Closed
        } else {
            &&& a is Connect
            &&& a->Connect_0.wf()
            &&& host_bytes(a->Connect_0.host) == b.subrange(3, request_len(b) - 2)
            &&& a->Connect_0.port == request_port(b)
            &&& t == SessionView {
                phase: Phase::Connecting,
                pending: b.subrange(request_len(b), b.len() as int),
            }
        },
        Phase::Connecting => a is Idle && t == SessionView {
            phase: Phase::Connecting,
            pending: b,
        },
        _ => a is Idle && t == s,
    }
}

/// `a` and `t` are what `on_connect` gives when the outbound connect ends
/// with `outcome` in state `s`.
pub open spec fn connect_step(
    s: SessionView,
    outcome: Result<Destination, ConnectFailure>,
    a: Action,
    t: SessionView,
) -> bool {
    if s.phase != Phase::Connecting {
        a is Idle && t == s
    } else {
        match outcome {
            Ok(bound) => {
                &&& a is Relay
                &&& a->reply@ == reply_spec(REPLY_SUCCEEDED, bound)
                &&& a->early@ == s.pending
                &&& t == SessionView { phase: Phase::Connected, pending: Seq::empty() }
            },
            Err(f) => {
                &&& a is SendAndClose
                &&& a->SendAndClose_0@ == failure_reply_spec(failure_code_spec(f))
                &&& t.phase == Phase::Closed
            },
        }
    }
}

impl Session {
    /// A session that waits for the client's greeting.
    pub fn new() -> (r: Session)
        ensures
            r@ == (SessionView { phase: Phase::AwaitGreeting, pending: Seq::empty() }),
    {
        Session { phase: Phase::AwaitGreeting, pending: Vec::new() }
    }

    /// The current phase.
    pub fn phase(&self) -> (r: Phase)
        ensures
            r == self@.phase,
    {
        self.phase
    }

    /// Takes the next bytes read from the client.
    pub fn on_data(&mut self, data: &[u8]) -> (a: Action)
        ensures
            data_step(old(self)@, data@, a, final(self)@),
    {
        match self.phase {
            Phase::AwaitGreeting => {
                append_bytes(&mut self.pending, data);
                match parse_greeting(self.pending.as_slice()) {
                    Greeting::Incomplete => Action::ReadMore,
                    Greeting::BadVersion => {
                        self.phase = Phase::Closed;
                        Action::Close
                    },
                    Greeting::Complete { no_auth, size } => {
                        if no_auth {
                            let rest = copy_range(self.pending.as_slice(), size, self.pending.len());
                            self.pending = rest;
                            self.phase = Phase::AwaitRequest;
                            Action::Send(method_reply(true))
                        } else {
                            self.phase = Phase::Closed;
                            Action::SendAndClose(method_reply(false))
                        }
                    },
                }
            },
            Phase::AwaitRequest => {
                append_bytes(&mut self.pending, data);
                match parse_request(self.pending.as_slice()) {
                    Request::Incomplete => Action::ReadMore,
                    Request::BadVersion => {
                        self.phase = Phase::Closed;
                        Action::Close
                    },
                    Request::UnsupportedAddress => {
                        self.phase = Phase::Closed;
                        Action::SendAndClose(failure_reply(REPLY_ADDRESS_NOT_SUPPORTED))
                    },
                    Request::Complete { command, dest, size } => {
                        if command != CMD_CONNECT {
                            self.phase = Phase::Closed;
                            Action::SendAndClose(failure_reply(REPLY_COMMAND_NOT_SUPPORTED))
                        } else {
                            let rest = copy_range(self.pending.as_slice(), size, self.pending.len());
                            self.pending = rest;
                            self.phase = Phase::Connecting;
                            Action::Connect(dest)
                        }
                    },
                }
            },
            Phase::Connecting => {
                append_bytes(&mut self.pending, data);
                Action::Idle
            },
            _ => Action::Idle,
        }
    }

    /// Takes the outcome of the outbound connect: the address the new
    /// connection is bound to, or why it failed.
    pub fn on_connect(&mut self, outcome: Result<Destination, ConnectFailure>) -> (a: Action)
        requires
            outcome matches Ok(bound) ==> bound.wf(),
        ensures
            connect_step(old(self)@, outcome, a, final(self)@),
    {
        if self.phase != Phase::Connecting {
            return Action::Idle;
        }
        match outcome {
            Ok(bound) => {
                let reply = encode_reply(REPLY_SUCCEEDED, &bound);
                let early = copy_range(self.pending.as_slice(), 0, self.pending.len());
                self.pending = Vec::new();
                self.phase = Phase::Connected;
                proof {
                    assert(early@ =~= old(self)@.pending);
                }
                Action::Relay { reply, early }
            },
            Err(f) => {
                self.phase = Phase::Closed;
                Action::SendAndClose(failure_reply(failure_code(&f)))
            },
        }
    }

    /// The client stream ended, failed, or the relay finished: the session
    /// is over.
    pub fn close(&mut self) -> (a: Action)
        ensures
            a is Close,
            final(self)@.phase == Phase::Closed,
    {
        self.phase = Phase::Closed;
        Action::Close
    }
}

/// A whole CONNECT request makes the session connect to the destination it
/// names; when that connect succeeds, the client is sent a success reply
/// carrying the bound address, the bytes the client sent after its request
/// are handed on, and the session goes on to relay.
pub proof fn lemma_connect_request_succeeds(
    s: SessionView,
    data: Seq<u8>,
    a: Action,
    t: SessionView,
    bound: Destination,
    a2: Action,
    u: SessionView,
)
    requires
        s.phase == Phase::AwaitRequest,
        request_complete(s.pending + data),
        (s.pending + data)[1] == CMD_CONNECT,
        data_step(s, data, a, t),
        connect_step(t, Ok(bound), a2, u),
    ensures
        a is Connect,
        host_bytes(a->Connect_0.host) == (s.pending + data).subrange(
            3,
            request_len(s.pending + data) - 2,
        ),
        a->Connect_0.port == request_port(s.pending + data),
        a2 is Relay,
        a2->reply@[1] == REPLY_SUCCEEDED,
        a2->reply@ == reply_spec(REPLY_SUCCEEDED, bound),
        a2->early@ == (s.pending + data).subrange(
            request_len(s.pending + data),
            (s.pending + data).len() as int,
        ),
        u.phase == Phase::Connected,
{
}

/// A whole request with any command but CONNECT is answered with the
/// "command not supported" reply and closes the session, which then never
/// connects anywhere, whatever comes after.
pub proof fn lemma_unsupported_command_rejected(
    s: SessionView,
    data: Seq<u8>,
    a: Action,
    t: SessionView,
    more: Seq<u8>,
    a2: Action,
    u: SessionView,
    outcome: Result<Destination, ConnectFailure>,
    a3: Action,
    w: SessionView,
)
    requires
        s.phase == Phase::AwaitRequest,
        request_complete(s.pending + data),
        (s.pending + data)[1] != CMD_CONNECT,
        data_step(s, data, a, t),
        data_step(t, more, a2, u),
        connect_step(t, outcome, a3, w),
    ensures
        a is SendAndClose,
        a->SendAndClose_0@ == failure_reply_spec(REPLY_COMMAND_NOT_SUPPORTED),
        a->SendAndClose_0@[1] == REPLY_COMMAND_NOT_SUPPORTED,
        t.phase == Phase::Closed,
        a2 is Idle && u.phase == Phase::Closed,
        a3 is Idle && w.phase == Phase::Closed,
{
}

} // verus!
