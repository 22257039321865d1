//! The decisions of the login flow around the callback server: what a bind
//! result leads to, and what a stopped server's result means for the caller.

use vstd::prelude::*;
use crate::browser::{authorization_url_text, Browser};
use crate::error::AuthError;
use crate::listener::LocalAddr;
use crate::server::{CallbackOutcome, LocalServer, OutcomeModel, ServerPhase};
use crate::signal::SignalState;

verus! {

/// After the bind: a failure ends the flow before any browser interaction;
/// a bound address gives an idle server around it and the authorization URL
/// that redirects to it.
pub fn prepare(bound: Result<LocalAddr, AuthError>) -> (r: Result<(LocalServer, String), AuthError>)
    ensures
        r is Ok <==> bound is Ok,
        bound is Err ==> r->Err_0 == bound->Err_0,
        bound is Ok ==> ({
            let (server, url) = r->Ok_0;
            &&& server.spec_addr() == bound->Ok_0
            &&& server@.phase == ServerPhase::Idle
            &&& server@.signal == (SignalState { signaled: false, consumed: false })
            &&& server@.outcome is None
            &&& server@.failure is None
            &&& url@ == authorization_url_text(bound->Ok_0)
        }),
{
    match bound {
        Err(e) => Err(e),
        Ok(addr) => {
            let url = Browser::authorization_url(&addr);
            Ok((LocalServer::new(addr), url))
        },
    }
}

/// What the caller receives once the server stopped: the code to exchange
/// for a token, a denial, or the server's own error.
pub fn authorization_code(result: Result<CallbackOutcome, AuthError>) -> (r: Result<String, AuthError>)
    ensures
        match result {
            Ok(o) => match o@ {
                OutcomeModel::Granted(c) => r is Ok && r->Ok_0@ == c,
                OutcomeModel::Denied => r is Err && r->Err_0 is AuthorizationDenied,
            },
            Err(e) => r is Err && r->Err_0 == e,
        },
{
    match result {
        Ok(CallbackOutcome::AuthorizationGranted { code }) => Ok(code),
        Ok(CallbackOutcome::AuthorizationDenied) => Err(AuthError::AuthorizationDenied),
        Err(e) => Err(e),
    }
}

pub open spec fn granted_notice_prefix() -> Seq<char> {
    "auth_code: "@
}

pub open spec fn denied_notice() -> Seq<char> {
    "User denied consent. Try again."@
}

impl CallbackOutcome {
    /// The console line that reports the outcome.
    pub fn notice(&self) -> (r: String)
        ensures
            match self@ {
                OutcomeModel::Granted(c) => r@ == granted_notice_prefix() + c,
                OutcomeModel::Denied => r@ == denied_notice(),
            },
    {
        match self {
            CallbackOutcome::AuthorizationGranted { code } => {
                let mut s = String::from_str("auth_code: ");
                s.append(code.as_str());
                s
            },
            CallbackOutcome::AuthorizationDenied => String::from_str(
                "User denied consent. Try again.",
            ),
        }
    }
}

} // verus!
