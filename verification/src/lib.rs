//! Lifecycle engine of a peer-to-peer data channel.
//!
//! The channel is a sequential state machine. Every operation that would
//! wait on the network is split in two: the channel decides what is to be
//! done and says so in its result, and the caller performs it and reports
//! back. All rules of the channel's life live here, each with a contract.

pub mod actions;
pub mod channel;
pub mod error;
pub mod handlers;
pub mod host;
pub mod laws;
pub mod message;
pub mod model;
pub mod parameters;
pub mod reliability;
pub mod state;
pub mod stats;
pub mod stream;
