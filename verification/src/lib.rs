//! Self-update core for the `mcdp-cli` tool.
//!
//! The library holds the decision logic of the update subsystem: resolving
//! the build's own version, mapping the toolchain target triple to a release
//! platform identifier, planning an update run against a fetched release
//! index, and classifying failures into user-facing categories. All network
//! and filesystem work is left to the caller, which feeds the results back
//! into the verified planning functions.

pub mod classify;
pub mod identity;
pub mod orchestrator;
pub mod target;
pub mod text;
pub mod version;
