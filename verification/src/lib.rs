//! A command runner for a lazily installed external tool, and the scanning
//! modes of one such tool.
//!
//! A call goes through two steps: the runner asks a package provider to make
//! the tool available, and, where that succeeded, hands the argument vector of
//! the call to a process executor and turns its report into the captured
//! standard output or a typed failure. Both collaborators are closures that
//! the caller passes in, so the library performs no input or output of its
//! own, and its contracts speak of whatever the collaborators answer.
//!
//! The decisions of a call are also on offer one by one, for a caller that
//! drives the two steps itself: [`build_argv`], [`plan`] and [`classify`].

pub mod argv;
pub mod model;
pub mod modes;
pub mod runner;

pub use argv::build_argv;
pub use model::{ExecError, InstallError, InvocationRequest, InvocationResult, SpawnError};
pub use modes::{config, fs, image, repo, rootfs, sbom, scan, setup, trivy};
pub use runner::{classify, plan, CommandRunner, ToolSpec};
