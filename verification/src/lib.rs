//! A streaming completion relay with bounded conversational memory.
//!
//! A client sends a prompt for one of its conversations; a provider streams
//! an answer; the relay hands each piece on as it arrives, gathers the whole,
//! and records the finished turn.  This crate holds the rules of that as
//! verified, sequential code:
//!
//! - [`memory`]: the bounded memory of a conversation;
//! - [`store`]: the conversations, each with its latest record and memory;
//! - [`persistence`]: the bounded queue of records that wait to be written;
//! - [`relay`]: the state machine of one request;
//! - [`chat_stream`]: the values that travel through a request;
//! - [`config`]: the settings.
//!
//! Nothing here waits, locks or talks to a network.  Whoever drives these
//! types does that, hands plain values in and takes plain values out.

pub mod chat_stream;
pub mod config;
pub mod memory;
pub mod persistence;
pub mod relay;
pub mod store;
