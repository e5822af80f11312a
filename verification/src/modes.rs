//! The scanning modes of the tool, each a call with a fixed subcommand.

use crate::argv::argv_of;
use crate::model::{
    ok_view, ExecError, InstallError, InvocationRequest, InvocationRequestView, InvocationResult,
    InvocationResultView, SpawnError,
};
use crate::runner::{CommandRunner, ToolSpec};
use vstd::prelude::*;

verus! {

/// The request of a scanning mode: its subcommand, followed by the caller's
/// arguments as one token.
pub open spec fn scan_request(subcommand: Seq<char>, args: Seq<char>) -> InvocationRequestView {
    InvocationRequestView { subcommand, extra_args: seq![args] }
}

/// The request of the set-up mode: no subcommand, and the flag that makes the
/// tool print its version.
pub open spec fn setup_request() -> InvocationRequestView {
    InvocationRequestView { subcommand: Seq::empty(), extra_args: seq!["--version"@] }
}

/// What a mode hands back for a result of the runner: the captured standard
/// output, or the failure.
pub open spec fn stdout_of(result: Result<InvocationResultView, ExecError>) -> Result<
    Seq<char>,
    ExecError,
> {
    match result {
        Ok(r) => Ok(r.stdout),
        Err(e) => Err(e),
    }
}

/// `out` is a possible outcome of a mode that sends `request` to `tool`
/// through `runner`.
pub open spec fn may_print<
    P: Fn(&str) -> Result<(), InstallError>,
    X: Fn(&[String]) -> Result<InvocationResult, SpawnError>,
>(
    runner: &CommandRunner<X>,
    tool: &ToolSpec<P>,
    request: InvocationRequestView,
    out: Result<Seq<char>, ExecError>,
) -> bool {
    exists|result: Result<InvocationResultView, ExecError>|
        #[trigger] runner.may_return(tool, request, result) && out == stdout_of(result)
}

/// A scanning mode spawns the tool's name, the mode's subcommand and the
/// caller's arguments, three tokens in that order.
pub proof fn lemma_scan_argv(name: Seq<char>, subcommand: Seq<char>, args: Seq<char>)
    requires
        subcommand.len() > 0,
    ensures
        argv_of(name, scan_request(subcommand, args)) == seq![name, subcommand, args],
{
    assert(argv_of(name, scan_request(subcommand, args)) =~= seq![name, subcommand, args]);
}

/// The set-up mode spawns the tool's name and the version flag, and nothing
/// else.
pub proof fn lemma_setup_argv(name: Seq<char>)
    ensures
        argv_of(name, setup_request()) == seq![name, "--version"@],
{
    assert(argv_of(name, setup_request()) =~= seq![name, "--version"@]);
}

/// The scanner that the modes are made for, installed by `installer`.
pub fn trivy<P: Fn(&str) -> Result<(), InstallError>>(installer: P) -> (tool: ToolSpec<P>)
    ensures
        tool@ == "trivy"@,
        tool.installer() == installer,
{
    proof {
        reveal_strlit("trivy");
    }
    ToolSpec::new("trivy".to_owned(), installer).unwrap()
}

/// Runs `tool` with `subcommand` and with `args` as its one extra argument,
/// and returns the captured standard output.
pub fn scan<
    P: Fn(&str) -> Result<(), InstallError>,
    X: Fn(&[String]) -> Result<InvocationResult, SpawnError>,
>(runner: &CommandRunner<X>, tool: &ToolSpec<P>, subcommand: &str, args: String) -> (out: Result<
    String,
    ExecError,
>)
    requires
        runner.can_run(tool, scan_request(subcommand@, args@)),
    ensures
        may_print(runner, tool, scan_request(subcommand@, args@), ok_view(out)),
{
    let ghost wanted = scan_request(subcommand@, args@);
    let mut extra_args: Vec<String> = Vec::new();
    extra_args.push(args);
    let request = InvocationRequest { subcommand: subcommand.to_owned(), extra_args };
    assert(request@.extra_args == wanted.extra_args);
    assert(request@ == wanted);
    captured_stdout(runner.run(tool, request))
}

/// Keeps the standard output of a result.
fn captured_stdout(result: Result<InvocationResult, ExecError>) -> (out: Result<String, ExecError>)
    ensures
        ok_view(out) == stdout_of(ok_view(result)),
{
    match result {
        Ok(r) => Ok(r.stdout),
        Err(e) => Err(e),
    }
}

/// Installs the tool and has it print its version.
pub fn setup<
    P: Fn(&str) -> Result<(), InstallError>,
    X: Fn(&[String]) -> Result<InvocationResult, SpawnError>,
>(runner: &CommandRunner<X>, tool: &ToolSpec<P>) -> (out: Result<String, ExecError>)
    requires
        runner.can_run(tool, setup_request()),
    ensures
        may_print(runner, tool, setup_request(), ok_view(out)),
{
    let mut extra_args: Vec<String> = Vec::new();
    extra_args.push("--version".to_owned());
    let request = InvocationRequest { subcommand: String::new(), extra_args };
    assert(request@.extra_args == setup_request().extra_args);
    assert(request@ == setup_request());
    captured_stdout(runner.run(tool, request))
}

/// Scans configuration files for misconfigurations.
pub fn config<
    P: Fn(&str) -> Result<(), InstallError>,
    X: Fn(&[String]) -> Result<InvocationResult, SpawnError>,
>(runner: &CommandRunner<X>, tool: &ToolSpec<P>, args: String) -> (out: Result<String, ExecError>)
    requires
        runner.can_run(tool, scan_request("config"@, args@)),
    ensures
        may_print(runner, tool, scan_request("config"@, args@), ok_view(out)),
{
    scan(runner, tool, "config", args)
}

/// Scans a local filesystem.
pub fn fs<
    P: Fn(&str) -> Result<(), InstallError>,
    X: Fn(&[String]) -> Result<InvocationResult, SpawnError>,
>(runner: &CommandRunner<X>, tool: &ToolSpec<P>, args: String) -> (out: Result<String, ExecError>)
    requires
        runner.can_run(tool, scan_request("fs"@, args@)),
    ensures
        may_print(runner, tool, scan_request("fs"@, args@), ok_view(out)),
{
    scan(runner, tool, "fs", args)
}

/// Scans a repository.
pub fn repo<
    P: Fn(&str) -> Result<(), InstallError>,
    X: Fn(&[String]) -> Result<InvocationResult, SpawnError>,
>(runner: &CommandRunner<X>, tool: &ToolSpec<P>, args: String) -> (out: Result<String, ExecError>)
    requires
        runner.can_run(tool, scan_request("repository"@, args@)),
    ensures
        may_print(runner, tool, scan_request("repository"@, args@), ok_view(out)),
{
    scan(runner, tool, "repository", args)
}

/// Scans a container image.
pub fn image<
    P: Fn(&str) -> Result<(), InstallError>,
    X: Fn(&[String]) -> Result<InvocationResult, SpawnError>,
>(runner: &CommandRunner<X>, tool: &ToolSpec<P>, args: String) -> (out: Result<String, ExecError>)
    requires
        runner.can_run(tool, scan_request("image"@, args@)),
    ensures
        may_print(runner, tool, scan_request("image"@, args@), ok_view(out)),
{
    scan(runner, tool, "image", args)
}

/// Generates a software bill of materials.
pub fn sbom<
    P: Fn(&str) -> Result<(), InstallError>,
    X: Fn(&[String]) -> Result<InvocationResult, SpawnError>,
>(runner: &CommandRunner<X>, tool: &ToolSpec<P>, args: String) -> (out: Result<String, ExecError>)
    requires
        runner.can_run(tool, scan_request("sbom"@, args@)),
    ensures
        may_print(runner, tool, scan_request("sbom"@, args@), ok_view(out)),
{
    scan(runner, tool, "sbom", args)
}

/// Scans a root filesystem.
pub fn rootfs<
    P: Fn(&str) -> Result<(), InstallError>,
    X: Fn(&[String]) -> Result<InvocationResult, SpawnError>,
>(runner: &CommandRunner<X>, tool: &ToolSpec<P>, args: String) -> (out: Result<String, ExecError>)
    requires
        runner.can_run(tool, scan_request("rootfs"@, args@)),
    ensures
        may_print(runner, tool, scan_request("rootfs"@, args@), ok_view(out)),
{
    scan(runner, tool, "rootfs", args)
}

} // verus!
