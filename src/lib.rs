//! A relay that takes query envelopes from a broker stream, runs each one
//! against an HTTP backend and hands back the completed envelope.
//!
//! The library holds the relay's decisions: how an envelope is completed,
//! how many requests may be in flight, when the connection drains and closes,
//! and when the bearer credential must be fetched again. The transport itself
//! (websocket, HTTP, token exchange) is driven by the program around it.

pub mod model;
pub mod auth;
pub mod config;
pub mod client;
pub mod pump;
