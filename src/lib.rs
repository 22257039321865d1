//! Local half of a browser-based login flow: an ephemeral callback listener,
//! a one-shot shutdown signal, the callback server's decisions, and the
//! authorization URL handed to the browser.

pub mod text;
pub mod error;
pub mod listener;
pub mod browser;
pub mod signal;
pub mod server;
pub mod flow;
pub mod deployments;
