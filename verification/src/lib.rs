//! Core of a server that streams Certificate Transparency updates.
//!
//! What the server decides and counts is here: whom it lets in, what it sends to whom, when it
//! lets go of a client, and what it reports. The process around it waits, sends and exports.

pub mod admission;
pub mod cli;
pub mod config;
pub mod ct;
pub mod memstats;
pub mod models;
pub mod payload;
pub mod sse;
pub mod telemetry;
pub mod text;
pub mod websocket;
