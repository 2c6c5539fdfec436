//! A minimal concurrent web server library: request classification,
//! canned response construction, an abstract bidirectional transport
//! with an in-memory implementation, and the per-connection handler
//! state machine that a driver runs against a real network.

pub mod request;
pub mod response;
pub mod transport;
pub mod handler;
pub mod machine;
pub mod laws;
