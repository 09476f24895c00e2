//! A line-based chat relay: a registry of connected peers, a broadcast that
//! fans each message out to every other peer without waiting on slow ones,
//! and the state machine of one client connection.

pub mod config;
pub mod message;
pub mod registry;
pub mod session;
