//! A sandboxed capability broker: a small catalog of privileged host
//! operations (read a file, write a file, run an allow-listed program)
//! guarded by bearer authentication, origin checks, size caps, rate
//! limiting, path confinement and subprocess supervision.
//!
//! This crate holds the decision logic: admission, confinement, the
//! command allow-list, output truncation and the response/audit shaping.
//! The network transport, the filesystem reads and writes and the
//! subprocess plumbing live outside and call into these functions.

pub mod b64;
pub mod config;
pub mod errors;
pub mod mcp;
pub mod security;
pub mod server;
pub mod text;
pub mod tools;
