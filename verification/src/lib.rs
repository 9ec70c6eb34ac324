//! Session-control core of a Debug Adapter Protocol server.
//!
//! The crate holds the decisions of a debug adapter session: which response
//! and which follow-up events answer a decoded request, and how the small
//! model of the debuggee (breakpoint registry, stop location, thread
//! identity) changes. It performs no I/O. A caller decodes a request, hands
//! it to [`command_handler::handle`] and writes the response that comes
//! back; once that is written it calls [`command_handler::answered`], which
//! does what was due after the response, and sends the event that comes back,
//! if there is one.

pub mod base_message;
pub mod command_handler;
pub mod events;
pub mod json;
pub mod laws;
pub mod requests;
pub mod responses;
pub mod state;
pub mod types;
pub mod utils;
