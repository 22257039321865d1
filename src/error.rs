//! What can go wrong in the login flow.

use vstd::prelude::*;

verus! {

/// The failures of the login flow, each kept apart so that a caller can tell
/// "never completed" from "explicitly declined".
#[derive(Clone, Debug)]
pub enum AuthError {
    /// The callback listener could not be bound; fatal, before any browser
    /// interaction.
    BindFailure { message: String },
    /// The browser could not be opened; the flow goes on with the printed URL.
    BrowserOpenFailure { message: String },
    /// The user declined consent at the provider.
    AuthorizationDenied,
    /// The callback handler failed while processing a request.
    HandlerInternalError { message: String },
    /// The server stopped without ever capturing an outcome.
    ShutdownWithoutOutcome,
}

} // verus!
