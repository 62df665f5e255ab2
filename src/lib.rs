//! Room registry and per-connection session logic of a multi-room chat server.

pub mod command;
pub mod notice;
pub mod broadcast;
pub mod registry;
pub mod listing;
pub mod session;
