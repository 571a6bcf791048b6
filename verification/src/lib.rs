//! Sandboxed shell execution for an autonomous agent: the command policy,
//! working-directory validation, output bounding and rendering, and the
//! decisions that surround running a process.

pub mod api;
pub mod paths;
pub mod policy;
pub mod text;
pub mod tools;
