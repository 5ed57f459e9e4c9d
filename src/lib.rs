//! Classification, toolchain invocation planning and artifact resolution for
//! building a workspace of services.
//!
//! The library decides which workspace members are services and of which
//! deployment class, which toolchain command lines build or clean them, where
//! each artifact lands, and under which name a built service is known. Running
//! the toolchain and reading files is left to the caller.

pub mod model;
pub mod paths;
pub mod classify;
pub mod toolchain;
pub mod plan;
pub mod outside;
pub mod naming;
