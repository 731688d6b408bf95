//! An ergonomic access layer over a chat-platform client: every fallible
//! call is attributed to the logical operation that was in flight when it
//! failed, and message construction goes through validated builder chains.

pub mod client;
pub mod error;
pub mod operation;
pub mod text;
