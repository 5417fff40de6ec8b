//! Session multiplexing core for a terminal-over-SSH service.
//!
//! The crate verifies the state that sits between the transport callbacks
//! and the screen renderer: the session registry, the per-session mode
//! state machine, the authentication log, and the buffered output bridge.
//! Transport, rendering and HTTP plumbing live outside the library.

pub mod auth;
pub mod brand;
pub mod bridge;
pub mod interactive;
pub mod invite;
pub mod registry;
pub mod session;
