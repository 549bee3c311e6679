//! A single Lavalink node: its configuration, the decisions of its
//! reconnect supervisor and of its frame reader, and its version-neutral
//! command surface.

pub mod config;
pub mod supervisor;
pub mod commands;
pub mod reader;
pub mod laws;
