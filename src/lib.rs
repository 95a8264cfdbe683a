//! Builds and serves documentation for versioned packages on demand.
//!
//! The library holds the verified core: where artifacts live, the commands of
//! each build stage, the build job as a state machine, and the registry of
//! builds in progress, failures and cached metadata.
use vstd::prelude::*;

pub mod builder;
pub mod command;
pub mod cratesio;
pub mod db;
pub mod store;
pub mod tasks;
pub mod workspace;

pub use workspace::TempCrate;
