//! ZokuZoku: the client side of the Hachimi IPC protocol, with the small
//! text, path and configuration helpers that the editor integration uses.
//!
//! The library performs no I/O. It says what is sent and what an answer means;
//! whoever owns the transport sends and receives.

pub mod commands;
pub mod config;
pub mod data_manager;
pub mod ipc;
pub mod json;
pub mod text;
pub mod utils;
