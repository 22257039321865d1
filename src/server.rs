//! The callback server's decisions: which request captures the outcome,
//! what each request is answered, when the server asks to shut down, and
//! what it yields once stopped.

use vstd::prelude::*;
use crate::error::AuthError;
use crate::listener::LocalAddr;
use crate::signal::{after_signal, after_wait, ShutdownSignal, SignalState};
use crate::text::str_equals;

verus! {

/// The lifecycle of a callback server.
#[derive(Clone, Copy, Debug, PartialEq, Eq, Structural)]
pub enum ServerPhase {
    /// Constructed with its listener bound, not yet serving.
    Idle,
    /// Accepting connections.
    Serving,
    /// Listener closed; no further accepts.
    Stopped,
}

/// The request methods the server tells apart.
#[derive(Clone, Copy, Debug, PartialEq, Eq, Structural)]
pub enum HttpMethod {
    Get,
    Post,
    Other,
}

/// What the single meaningful callback request reported.
#[derive(Clone, Debug, PartialEq, Eq)]
pub enum CallbackOutcome {
    AuthorizationGranted { code: String },
    AuthorizationDenied,
}

impl CallbackOutcome {
    /// A copy holding the same code.
    pub fn duplicate(&self) -> (r: CallbackOutcome)
        ensures
            r@ == self@,
    {
        match self {
            CallbackOutcome::AuthorizationGranted { code } => {
                CallbackOutcome::AuthorizationGranted { code: code.clone() }
            },
            CallbackOutcome::AuthorizationDenied => CallbackOutcome::AuthorizationDenied,
        }
    }
}

/// The mathematical value of a `CallbackOutcome`.
pub enum OutcomeModel {
    Granted(Seq<char>),
    Denied,
}

impl View for CallbackOutcome {
    type V = OutcomeModel;

    open spec fn view(&self) -> OutcomeModel {
        match self {
            CallbackOutcome::AuthorizationGranted { code } => OutcomeModel::Granted(code@),
            CallbackOutcome::AuthorizationDenied => OutcomeModel::Denied,
        }
    }
}

/// A response: status code and body.
#[derive(Debug)]
pub struct HttpReply {
    pub status: u16,
    pub body: String,
}

/// The answer to a request and whether the serve loop must now be told to
/// shut down.
#[derive(Debug)]
pub struct Handled {
    pub reply: HttpReply,
    pub notify_shutdown: bool,
}

/// The mathematical state of a callback server.
pub struct ServerModel {
    pub phase: ServerPhase,
    pub signal: SignalState,
    /// The authoritative outcome, written at most once.
    pub outcome: Option<OutcomeModel>,
    /// The first handler failure, reported when no outcome was captured.
    pub failure: Option<Seq<char>>,
}

/// A captured outcome or failure always comes with a shutdown request.
pub open spec fn server_wf(m: ServerModel) -> bool {
    (m.outcome is Some ==> m.signal.signaled) && (m.failure is Some ==> m.signal.signaled)
}

pub open spec fn callback_path() -> Seq<char> {
    "/callback"@
}

pub open spec fn success_body() -> Seq<char> {
    "{\"success\":true}"@
}

pub open spec fn error_body_prefix() -> Seq<char> {
    "{\"error\":"@
}

/// The body of an error reply around a message already written as a JSON
/// string literal.
pub open spec fn error_body_text(quoted: Seq<char>) -> Seq<char> {
    error_body_prefix() + quoted + seq!['}']
}

/// The JSON string literal for `s`: quoted, with the characters that JSON
/// requires escaped.
pub uninterp spec fn json_string_literal(s: Seq<char>) -> Seq<char>;

pub open spec fn is_callback_request(method: HttpMethod, path: Seq<char>) -> bool {
    method == HttpMethod::Post && path == callback_path()
}

pub open spec fn code_view(code: Option<String>) -> Option<Seq<char>> {
    match code {
        Some(c) => Some(c@),
        None => None,
    }
}

/// A `code` parameter grants authorization; its absence means denial.
pub open spec fn outcome_of(code: Option<Seq<char>>) -> OutcomeModel {
    match code {
        Some(c) => OutcomeModel::Granted(c),
        None => OutcomeModel::Denied,
    }
}

/// The state after a request. A callback asks for shutdown and captures its
/// outcome unless one was captured already; any other request changes
/// nothing.
pub open spec fn request_step(
    m: ServerModel,
    method: HttpMethod,
    path: Seq<char>,
    code: Option<Seq<char>>,
) -> ServerModel {
    if is_callback_request(method, path) {
        ServerModel {
            signal: after_signal(m.signal),
            outcome: if m.outcome is Some {
                m.outcome
            } else {
                Some(outcome_of(code))
            },
            ..m
        }
    } else {
        m
    }
}

/// `200` for a callback, `405` for another method on the callback path,
/// `404` for any other path.
pub open spec fn reply_status(method: HttpMethod, path: Seq<char>) -> u16 {
    if path == callback_path() {
        if method == HttpMethod::Post {
            200
        } else {
            405
        }
    } else {
        404
    }
}

pub open spec fn reply_body(method: HttpMethod, path: Seq<char>) -> Seq<char> {
    if is_callback_request(method, path) {
        success_body()
    } else {
        Seq::empty()
    }
}

/// The state after the callback handler failed: shutdown is still asked
/// for, and the first failure is kept.
pub open spec fn failure_step(m: ServerModel, message: Seq<char>) -> ServerModel {
    ServerModel {
        signal: after_signal(m.signal),
        failure: if m.failure is Some {
            m.failure
        } else {
            Some(message)
        },
        ..m
    }
}

pub open spec fn start_step(m: ServerModel) -> ServerModel {
    if m.phase == ServerPhase::Idle {
        ServerModel { phase: ServerPhase::Serving, ..m }
    } else {
        m
    }
}

pub open spec fn wait_step(m: ServerModel) -> ServerModel {
    ServerModel { signal: after_wait(m.signal), ..m }
}

pub open spec fn finish_step(m: ServerModel) -> ServerModel {
    ServerModel { phase: ServerPhase::Stopped, ..m }
}

/// What a stopped server yields: the captured outcome, else the first
/// handler failure, else the plain fact that nothing was captured.
pub open spec fn finish_result_ok(m: ServerModel, r: Result<CallbackOutcome, AuthError>) -> bool {
    match m.outcome {
        Some(o) => r is Ok && r->Ok_0@ == o,
        None => match m.failure {
            Some(msg) => r is Err && r->Err_0 is HandlerInternalError
                && r->Err_0->HandlerInternalError_message@ == msg,
            None => r is Err && r->Err_0 is ShutdownWithoutOutcome,
        },
    }
}

/// Relies on serde_json's `Display` for `Value::String`: it writes the
/// string as a JSON string literal. The result depends on `s` alone.
#[verifier::external_body]
fn json_quote(s: &str) -> (r: String)
    ensures
        r@ == json_string_literal(s@),
{
    serde_json::Value::String(s.to_string()).to_string()
}

/// The body of an error reply, given the message as a JSON string literal.
pub fn error_body(quoted: &str) -> (r: String)
    ensures
        r@ == error_body_text(quoted@),
{
    let mut s = String::from_str("{\"error\":");
    s.append(quoted);
    crate::text::push_char(&mut s, '}');
    s
}

/// The `500` reply for a failure inside the callback handler, with the
/// message as `{"error": <message>}`.
pub fn internal_error_reply(message: &str) -> (r: HttpReply)
    ensures
        r.status == 500,
        r.body@ == error_body_text(json_string_literal(message@)),
{
    let quoted = json_quote(message);
    HttpReply { status: 500, body: error_body(quoted.as_str()) }
}

/// Whether a request goes to the callback handler: a `POST` to the callback
/// path.
pub fn is_callback_route(method: HttpMethod, path: &str) -> (r: bool)
    ensures
        r == is_callback_request(method, path@),
{
    match method {
        HttpMethod::Post => str_equals(path, "/callback"),
        _ => false,
    }
}

/// The callback server: the listener's address, its lifecycle, the shutdown
/// signal, and the write-once outcome.
pub struct LocalServer {
    addr: LocalAddr,
    phase: ServerPhase,
    signal: ShutdownSignal,
    outcome: Option<CallbackOutcome>,
    failure: Option<String>,
}

impl View for LocalServer {
    type V = ServerModel;

    closed spec fn view(&self) -> ServerModel {
        ServerModel {
            phase: self.phase,
            signal: self.signal@,
            outcome: match self.outcome {
                Some(o) => Some(o@),
                None => None,
            },
            failure: match self.failure {
                Some(f) => Some(f@),
                None => None,
            },
        }
    }
}

impl LocalServer {
    pub closed spec fn spec_addr(&self) -> LocalAddr {
        self.addr
    }

    /// A server around a listener bound at `addr`: idle, nothing captured,
    /// no shutdown asked for.
    pub fn new(addr: LocalAddr) -> (r: LocalServer)
        ensures
            r.spec_addr() == addr,
            r@.phase == ServerPhase::Idle,
            r@.signal == (SignalState { signaled: false, consumed: false }),
            r@.outcome is None,
            r@.failure is None,
            server_wf(r@),
    {
        LocalServer {
            addr,
            phase: ServerPhase::Idle,
            signal: ShutdownSignal::new(),
            outcome: None,
            failure: None,
        }
    }

    /// The address of the listener.
    pub fn local_addr(&self) -> (r: LocalAddr)
        ensures
            r == self.spec_addr(),
    {
        self.addr
    }

    pub fn phase(&self) -> (r: ServerPhase)
        ensures
            r == self@.phase,
    {
        self.phase
    }

    /// Starts serving: an idle server becomes serving; otherwise nothing
    /// changes.
    pub fn start(&mut self)
        ensures
            final(self)@ == start_step(old(self)@),
            final(self).spec_addr() == old(self).spec_addr(),
    {
        if self.phase == ServerPhase::Idle {
            self.phase = ServerPhase::Serving;
        }
    }

    /// Handles one request with its `code` query parameter, if any.
    pub fn handle(&mut self, method: HttpMethod, path: &str, code: Option<String>) -> (h: Handled)
        ensures
            final(self)@ == request_step(old(self)@, method, path@, code_view(code)),
            final(self).spec_addr() == old(self).spec_addr(),
            h.reply.status == reply_status(method, path@),
            h.reply.body@ == reply_body(method, path@),
            h.notify_shutdown == (is_callback_request(method, path@) && !old(self)@.signal.signaled),
    {
        let on_path = str_equals(path, "/callback");
        if !on_path {
            return Handled { reply: HttpReply { status: 404, body: String::new() }, notify_shutdown: false };
        }
        match method {
            HttpMethod::Post => {},
            _ => {
                return Handled {
                    reply: HttpReply { status: 405, body: String::new() },
                    notify_shutdown: false,
                };
            },
        }
        let first = self.signal.signal();
        if self.outcome.is_none() {
            let outcome = match code {
                Some(c) => CallbackOutcome::AuthorizationGranted { code: c },
                None => CallbackOutcome::AuthorizationDenied,
            };
            self.outcome = Some(outcome);
        }
        Handled {
            reply: HttpReply { status: 200, body: String::from_str("{\"success\":true}") },
            notify_shutdown: first,
        }
    }

    /// Handles a failure inside the callback handler: answers `500` and still
    /// asks for shutdown, so that the server can stop.
    pub fn fail(&mut self, message: &str) -> (h: Handled)
        ensures
            final(self)@ == failure_step(old(self)@, message@),
            final(self).spec_addr() == old(self).spec_addr(),
            h.reply.status == 500,
            h.reply.body@ == error_body_text(json_string_literal(message@)),
            h.notify_shutdown == !old(self)@.signal.signaled,
    {
        let first = self.signal.signal();
        if self.failure.is_none() {
            self.failure = Some(String::from_str(message));
        }
        Handled { reply: internal_error_reply(message), notify_shutdown: first }
    }

    /// The serve loop's wait: `true` once shutdown was asked for.
    pub fn shutdown_requested(&mut self) -> (ready: bool)
        ensures
            final(self)@ == wait_step(old(self)@),
            final(self).spec_addr() == old(self).spec_addr(),
            ready == old(self)@.signal.signaled,
    {
        self.signal.wait()
    }

    /// Stops the server and yields what it captured.
    pub fn finish(&mut self) -> (r: Result<CallbackOutcome, AuthError>)
        ensures
            final(self)@ == finish_step(old(self)@),
            final(self).spec_addr() == old(self).spec_addr(),
            finish_result_ok(old(self)@, r),
    {
        self.phase = ServerPhase::Stopped;
        match &self.outcome {
            Some(o) => Ok(o.duplicate()),
            None => match &self.failure {
                Some(f) => Err(AuthError::HandlerInternalError { message: f.clone() }),
                None => Err(AuthError::ShutdownWithoutOutcome),
            },
        }
    }
}

/// Every step keeps a server well formed.
pub proof fn lemma_steps_keep_wf(
    m: ServerModel,
    method: HttpMethod,
    path: Seq<char>,
    code: Option<Seq<char>>,
    message: Seq<char>,
)
    requires
        server_wf(m),
    ensures
        server_wf(start_step(m)),
        server_wf(request_step(m, method, path, code)),
        server_wf(failure_step(m, message)),
        server_wf(wait_step(m)),
        server_wf(finish_step(m)),
{
}

/// A callback carrying a code is answered `200 {"success":true}`, captures
/// exactly that code as granted, and asks for shutdown: the serve loop's
/// wait is then ready, and the stopped server yields that code.
pub proof fn lemma_code_is_granted(
    m: ServerModel,
    code: Seq<char>,
    r: Result<CallbackOutcome, AuthError>,
)
    requires
        m.outcome is None,
    ensures
        ({
            let m1 = request_step(m, HttpMethod::Post, callback_path(), Some(code));
            &&& reply_status(HttpMethod::Post, callback_path()) == 200
            &&& reply_body(HttpMethod::Post, callback_path()) == success_body()
            &&& m1.outcome == Some(OutcomeModel::Granted(code))
            &&& m1.signal.signaled
            &&& wait_step(m1).signal.consumed
            &&& finish_step(wait_step(m1)).phase == ServerPhase::Stopped
            &&& finish_result_ok(wait_step(m1), r) ==> (r is Ok && r->Ok_0@ == OutcomeModel::Granted(
                code,
            ))
        }),
{
}

/// A callback without a code is answered `200 {"success":true}`, captures a
/// denial, and asks for shutdown: the serve loop's wait is then ready, and
/// the stopped server yields the denial.
pub proof fn lemma_missing_code_is_denied(m: ServerModel, r: Result<CallbackOutcome, AuthError>)
    requires
        m.outcome is None,
    ensures
        ({
            let m1 = request_step(m, HttpMethod::Post, callback_path(), None);
            &&& reply_status(HttpMethod::Post, callback_path()) == 200
            &&& reply_body(HttpMethod::Post, callback_path()) == success_body()
            &&& m1.outcome == Some(OutcomeModel::Denied)
            &&& m1.signal.signaled
            &&& wait_step(m1).signal.consumed
            &&& finish_step(wait_step(m1)).phase == ServerPhase::Stopped
            &&& finish_result_ok(wait_step(m1), r) ==> (r is Ok && r->Ok_0@ == OutcomeModel::Denied)
        }),
{
}

/// A second callback changes nothing: the first outcome stays the
/// authoritative one, no second shutdown is asked for, and the second
/// request is answered `200` like the first.
pub proof fn lemma_duplicate_callback_changes_nothing(
    m: ServerModel,
    first: Option<Seq<char>>,
    second: Option<Seq<char>>,
)
    ensures
        ({
            let m1 = request_step(m, HttpMethod::Post, callback_path(), first);
            let m2 = request_step(m1, HttpMethod::Post, callback_path(), second);
            &&& m2 == m1
            &&& m1.signal.signaled
            &&& m.outcome is None ==> m2.outcome == Some(outcome_of(first))
            &&& reply_status(HttpMethod::Post, callback_path()) == 200
        }),
{
}

/// A request to any other path is answered `404`, does not ask for
/// shutdown, and captures nothing.
pub proof fn lemma_other_path_changes_nothing(
    m: ServerModel,
    method: HttpMethod,
    path: Seq<char>,
    code: Option<Seq<char>>,
)
    requires
        path != callback_path(),
    ensures
        request_step(m, method, path, code) == m,
        reply_status(method, path) == 404,
{
}

} // verus!
