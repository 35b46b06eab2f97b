//! Supervision core of a chat-protocol bridge: the deletion-aware merge of the
//! engine's authentication state, the line-delimited command/event protocol,
//! the restart policy of the engine process and the single-occupant provider
//! slot, each stated over a mathematical model and verified.
pub mod json;
pub mod auth;
pub mod ipc;
pub mod supervisor;
pub mod slot;
pub mod config;
pub mod keyboard;
pub mod types;
pub mod session;
pub mod security;
pub mod native;
