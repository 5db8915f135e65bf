//! A verified launcher core for a Windows-compatibility runner.
//!
//! The library holds the resolved launch configuration, validates that the
//! required paths exist, lays out the exact argument list and child
//! environment for the launch, and maps the child's exit status to a result.
//! Spawning the child and waiting for it are operating-system process I/O and
//! belong to the unverified shell around this crate.

pub mod builder;
pub mod error;
pub mod launch;

pub use builder::ProtonBuilder;
pub use error::{error_here, ErrorKind, LaunchError};
pub use launch::{exit_verdict, LaunchPlan, Proton};
