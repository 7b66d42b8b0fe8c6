//! Loopback OAuth 2.0 authorization-code callback coordination.
//!
//! The library holds the decisions of the flow: which port to take, how the
//! authorization URL is composed, how the browser's redirect is classified,
//! which page the browser is shown, and how exactly one result is published.
//! Sockets, the browser and threads belong to the caller.

pub mod url_text;
pub mod outcome;
pub mod port;
pub mod callback;
pub mod flow;

pub use outcome::{FlowError, FlowResult, OAuthResult};
