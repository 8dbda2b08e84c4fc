use vstd::prelude::*;

use crate::call::account::Login;
use crate::call::{self, Call};
use crate::error::{result_view, Error, ErrorModel, Result};
use crate::response::account::Login as LoginResponse;
use crate::response::{self, envelope_spec, read_envelope};
use crate::value::{Value, ValueModel};

verus! {

/// The status code of a successful call.
pub const SUCCESS: i32 = 1000;

/// The status code with which the server acknowledges the end of a session.
pub const SESSION_ENDED: i32 = 1500;

/// The INWX environment to use. The Sandbox is good for testing
/// or debugging purposes.
#[derive(Clone, Copy, Debug, PartialEq, Eq, Structural)]
pub enum Endpoint {
    Production,
    Sandbox,
}

impl Endpoint {
    pub open spec fn url_spec(self) -> Seq<char> {
        match self {
            Endpoint::Production => "https://api.domrobot.com/xmlrpc/"@,
            Endpoint::Sandbox => "https://api.ote.domrobot.com/xmlrpc/"@,
        }
    }

    /// The address of the endpoint's XML-RPC interface.
    pub fn url(self) -> (r: &'static str)
        ensures
            r@ == self.url_spec(),
    {
        match self {
            Endpoint::Production => "https://api.domrobot.com/xmlrpc/",
            Endpoint::Sandbox => "https://api.ote.domrobot.com/xmlrpc/",
        }
    }
}

/// Accepts a status code that is among the expected ones, and rejects any other with
/// both the expected codes and the code received.
pub fn check_status(expected: Vec<i32>, status: i32) -> (r: Result<()>)
    ensures
        match r {
            Ok(_) => expected@.contains(status),
            Err(e) => !expected@.contains(status) && e.model() == ErrorModel::UnexpectedStatus(
                expected@,
                status,
            ),
        },
{
    let mut i: usize = 0;
    while i < expected.len()
        invariant
            i <= expected.len(),
            forall|j: int| 0 <= j < i ==> expected@[j] != status,
        decreases expected.len() - i,
    {
        if expected[i] == status {
            return Ok(());
        }
        i = i + 1;
    }
    Err(Error::UnexpectedStatus(expected, status))
}

/// What a call's response yields: the decoded payload when the status code is one the
/// call expects, and the error otherwise.
pub open spec fn reply_spec<R: response::Response>(
    expected: Seq<i32>,
    reply: ValueModel,
) -> core::result::Result<R::V, ErrorModel> {
    match envelope_spec(reply) {
        Err(e) => Err(e),
        Ok((code, payload)) => if expected.contains(code) {
            R::payload_spec(payload)
        } else {
            Err(ErrorModel::UnexpectedStatus(expected, code))
        },
    }
}

/// Checks the status code of the response to `call` and decodes its payload.
pub fn finish_call<C: Call + call::Response<R>, R: response::Response>(call: &C, reply: Value) -> (r:
    Result<R>)
    ensures
        result_view(r) == reply_spec::<R>(call.expected_spec(), reply.model()),
{
    let data = match read_envelope(reply) {
        Ok(d) => d,
        Err(e) => return Err(e),
    };
    match check_status(call.expected(), data.status) {
        Ok(_) => R::from_payload(data.params),
        Err(e) => Err(e),
    }
}

/// A response whose status code is not among those the call expects is rejected with
/// `UnexpectedStatus`, whatever its payload, although the exchange itself went through.
pub proof fn lemma_status_gating<R: response::Response>(expected: Seq<i32>, reply: ValueModel)
    requires
        envelope_spec(reply) is Ok,
        !expected.contains(envelope_spec(reply)->Ok_0.0),
    ensures
        reply_spec::<R>(expected, reply) == Err::<R::V, ErrorModel>(
            ErrorModel::UnexpectedStatus(expected, envelope_spec(reply)->Ok_0.0),
        ),
{
}

/// Where a client's session stands.
#[derive(Clone, Copy, Debug, PartialEq, Eq, Structural)]
pub enum SessionState {
    /// No login has succeeded yet.
    Unauthenticated,
    /// Logged in; calls may be made.
    Active,
    /// Torn down; nothing more may be done with it.
    Closed,
}

/// The life cycle of one session: a login opens it, and teardown closes it for good.
#[derive(Debug)]
pub struct Session {
    state: SessionState,
}

impl Session {
    pub closed spec fn state_of(&self) -> SessionState {
        self.state
    }

    pub fn new() -> (s: Session)
        ensures
            s.state_of() == SessionState::Unauthenticated,
    {
        Session { state: SessionState::Unauthenticated }
    }

    pub fn state(&self) -> (r: SessionState)
        ensures
            r == self.state_of(),
    {
        self.state
    }

    /// Handles the response to the login call: the session becomes active exactly when
    /// the login succeeds, and stays unauthenticated otherwise.
    pub fn login_reply(&mut self, call: &Login, reply: Value) -> (r: Result<LoginResponse>)
        requires
            old(self).state_of() == SessionState::Unauthenticated,
        ensures
            result_view(r) == reply_spec::<LoginResponse>(call.expected_spec(), reply.model()),
            final(self).state_of() == if r is Ok {
                SessionState::Active
            } else {
                SessionState::Unauthenticated
            },
    {
        let r = finish_call(call, reply);
        if r.is_ok() {
            self.state = SessionState::Active;
        }
        r
    }

    /// Tears the session down. The result says whether a logout call is to be sent,
    /// which is so exactly when the session was active; its outcome does not matter.
    pub fn close(&mut self) -> (send_logout: bool)
        ensures
            send_logout == (old(self).state_of() == SessionState::Active),
            final(self).state_of() == SessionState::Closed,
    {
        let was_active = match self.state {
            SessionState::Active => true,
            _ => false,
        };
        self.state = SessionState::Closed;
        was_active
    }
}

} // verus!
