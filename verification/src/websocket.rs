//! Streaming over WebSocket connections.

pub mod laws;
pub mod server;
pub mod session;
pub mod step_laws;
