//! A verified core for a chat relay: each inbound channel message is turned
//! into exactly one completion call (to a managed provider or to a custom
//! HTTP endpoint), and the reply, when one arrives, is posted back verbatim.
//!
//! The library plans the call, frames the HTTP request body, and interprets
//! the outcome; the surrounding program performs the network work.

pub mod chat;
pub mod config;
pub mod errors;
pub mod escape;
pub mod laws;
pub mod outcome;
pub mod plan;
pub mod text;
