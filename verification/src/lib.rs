//! Profile resolution and message assembly for a chat-completion command-line client.
//!
//! The library holds the rules of the client: how a named profile inherits
//! settings from the profiles it refers to, how message files of a profile
//! are turned into an ordered conversation, how a request is put together
//! and how an exchange is recorded as history. Reading files, talking to
//! the remote service and the terminal stay with the caller.

pub mod api;
pub mod cmd;
pub mod config;
pub mod cycles;
pub mod error;
pub mod exchange;
pub mod input;
pub mod lineage;
pub mod listing;
pub mod loader;
pub mod messages;
pub mod path;
pub mod resolve;
pub mod text;
