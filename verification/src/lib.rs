//! Build-tool extension that compiles a restricted `no_std` crate targeting
//! RISC-V into PolkaVM bytecode, plus a scaffolding command that instantiates
//! a contract skeleton from a bundled template.
//!
//! The library holds the decision logic of the pipeline: locating the project
//! manifest, selecting the binary target, planning the cross-compile
//! invocation and checking its outcome, adapting the bytecode linker, and
//! planning the materialization of a template. File-system probing, the
//! subprocess, and all reads and writes are left to the thin front end that
//! drives these functions.

pub mod compile;
pub mod error;
pub mod locate;
pub mod manifest;
pub mod template;
