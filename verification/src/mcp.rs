//! The tool catalog and the shared protocol types.

pub mod registry;
pub mod types;
