//! Pending-block provider core for an Optimism-style rollup node.
//!
//! The crate derives the execution environment for the next speculative
//! block from the latest committed header, assembles a fully populated,
//! fork-gated header and body from post-execution results, and serves the
//! latest committed block as a cheap fallback when no fresh candidate
//! exists.

pub mod model;
pub mod forks;
pub mod roots;
pub mod env;
pub mod assemble;
pub mod store;
pub mod slot;
