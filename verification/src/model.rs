//! The values that pass between a caller, the command runner and its two
//! collaborators, together with the mathematical view of each.

use vstd::prelude::*;

verus! {

/// Why a package provider could not make a package available.
#[derive(Debug, Clone, Copy, PartialEq, Eq)]
pub enum InstallError {
    /// The provider knows no package of that name.
    Unresolved,
    /// The package is known but could not be installed.
    Unavailable,
}

/// Why the process executor has no finished child process to report.
#[derive(Debug, Clone, Copy, PartialEq, Eq)]
pub enum SpawnError {
    /// No binary of that name is on the execution path.
    NotFound,
    /// The process could not be spawned, or its output could not be captured.
    IOFailure,
}

/// Why an invocation produced no result.
#[derive(Debug, Clone, Copy, PartialEq, Eq)]
pub enum ExecError {
    /// The binary is missing after the attempt to install it.
    NotFound,
    /// The tool ran and reported failure with this exit code.
    NonZeroExit(i32),
    /// The process could not be spawned, or its output could not be captured.
    IOFailure,
}

/// One call of a tool: a subcommand, empty for a call without one, and the
/// argument tokens that follow it, in order.
#[derive(Debug, PartialEq, Eq)]
pub struct InvocationRequest {
    pub subcommand: String,
    pub extra_args: Vec<String>,
}

/// An [`InvocationRequest`] as text.
pub struct InvocationRequestView {
    pub subcommand: Seq<char>,
    pub extra_args: Seq<Seq<char>>,
}

impl View for InvocationRequest {
    type V = InvocationRequestView;

    open spec fn view(&self) -> InvocationRequestView {
        InvocationRequestView {
            subcommand: self.subcommand@,
            extra_args: self.extra_args.deep_view(),
        }
    }
}

/// What a finished child process left behind.
#[derive(Debug, PartialEq, Eq)]
pub struct InvocationResult {
    pub stdout: String,
    pub exit_code: i32,
}

/// An [`InvocationResult`] as text.
pub struct InvocationResultView {
    pub stdout: Seq<char>,
    pub exit_code: i32,
}

impl View for InvocationResult {
    type V = InvocationResultView;

    open spec fn view(&self) -> InvocationResultView {
        InvocationResultView { stdout: self.stdout@, exit_code: self.exit_code }
    }
}

/// The view of a `Result` whose success carries a value with a view.
pub open spec fn ok_view<T: View, E>(r: Result<T, E>) -> Result<T::V, E> {
    match r {
        Ok(t) => Ok(t@),
        Err(e) => Err(e),
    }
}

} // verus!
