//! The command runner: install the tool if needed, execute it, classify what
//! came back.

use crate::argv::{argv_of, build_argv};
use crate::model::{
    ok_view, ExecError, InstallError, InvocationRequest, InvocationRequestView, InvocationResult,
    InvocationResultView, SpawnError,
};
use vstd::prelude::*;

verus! {

/// What follows the installer's answer: the argument vector to spawn, or the
/// failure that ends the call. A failed installation leaves the binary
/// missing, and nothing is spawned.
pub open spec fn plan_of(
    name: Seq<char>,
    request: InvocationRequestView,
    installed: Result<(), InstallError>,
) -> Result<Seq<Seq<char>>, ExecError> {
    match installed {
        Ok(_) => Ok(argv_of(name, request)),
        Err(_) => Err(ExecError::NotFound),
    }
}

/// What a call yields once the executor has reported: the result of a child
/// that exited with code 0, and a failure for everything else.
pub open spec fn exec_result(report: Result<InvocationResultView, SpawnError>) -> Result<
    InvocationResultView,
    ExecError,
> {
    match report {
        Ok(r) => if r.exit_code == 0 {
            Ok(r)
        } else {
            Err(ExecError::NonZeroExit(r.exit_code))
        },
        Err(SpawnError::NotFound) => Err(ExecError::NotFound),
        Err(SpawnError::IOFailure) => Err(ExecError::IOFailure),
    }
}

/// What a call yields, given the installer's answer and the executor's
/// report. After a failed installation the report is not looked at.
pub open spec fn run_result(
    installed: Result<(), InstallError>,
    report: Result<InvocationResultView, SpawnError>,
) -> Result<InvocationResultView, ExecError> {
    match installed {
        Ok(_) => exec_result(report),
        Err(_) => Err(ExecError::NotFound),
    }
}

/// Decides what follows the installer's answer: the argument vector of the
/// child process to spawn, or the failure that ends the call.
pub fn plan(name: &str, request: &InvocationRequest, installed: Result<(), InstallError>) -> (step:
    Result<Vec<String>, ExecError>)
    ensures
        match plan_of(name@, request@, installed) {
            Ok(argv) => step matches Ok(tokens) && tokens.deep_view() == argv,
            Err(e) => step == Err::<Vec<String>, ExecError>(e),
        },
{
    match installed {
        Ok(_) => Ok(build_argv(name, request)),
        Err(_) => Err(ExecError::NotFound),
    }
}

/// Turns the executor's report into the result of the call.
pub fn classify(report: Result<InvocationResult, SpawnError>) -> (result: Result<
    InvocationResult,
    ExecError,
>)
    ensures
        ok_view(result) == exec_result(ok_view(report)),
{
    match report {
        Ok(r) => {
            if r.exit_code == 0 {
                Ok(r)
            } else {
                Err(ExecError::NonZeroExit(r.exit_code))
            }
        },
        Err(SpawnError::NotFound) => Err(ExecError::NotFound),
        Err(SpawnError::IOFailure) => Err(ExecError::IOFailure),
    }
}

/// An external tool: the name of its binary, which is also the name of its
/// package, and the provider that installs it. The name is never empty.
pub struct ToolSpec<P> {
    name: String,
    installer: P,
}

impl<P> View for ToolSpec<P> {
    type V = Seq<char>;

    /// The tool's name.
    closed spec fn view(&self) -> Seq<char> {
        self.name@
    }
}

impl<P> ToolSpec<P> {
    #[verifier::type_invariant]
    spec fn named(&self) -> bool {
        self.name@.len() > 0
    }
}

impl<P: Fn(&str) -> Result<(), InstallError>> ToolSpec<P> {
    /// The provider that installs the tool.
    pub closed spec fn installer(&self) -> P {
        self.installer
    }

    /// The installer may be called with the tool's name.
    pub open spec fn installable(&self) -> bool {
        forall|package: &str|
            package@ == self@ ==> #[trigger] call_requires(self.installer(), (package,))
    }

    /// `reply` is a possible answer of the installer to the tool's name.
    pub open spec fn may_reply(&self, reply: Result<(), InstallError>) -> bool {
        exists|package: &str|
            package@ == self@ && #[trigger] call_ensures(self.installer(), (package,), reply)
    }

    /// The installer can answer with success.
    pub open spec fn can_install(&self) -> bool {
        exists|reply: Result<(), InstallError>| reply is Ok && #[trigger] self.may_reply(reply)
    }

    /// Describes a tool, or refuses an empty name.
    pub fn new(name: String, installer: P) -> (tool: Option<Self>)
        ensures
            name@.len() == 0 <==> tool is None,
            tool matches Some(t) ==> t@ == name@ && t.installer() == installer,
    {
        if name.as_str().is_empty() {
            None
        } else {
            Some(ToolSpec { name, installer })
        }
    }

    /// The tool's name.
    pub fn name(&self) -> (name: &str)
        ensures
            name@ == self@,
            name@.len() > 0,
    {
        proof {
            use_type_invariant(self);
        }
        self.name.as_str()
    }
}

/// Runs external tools through a process executor.
pub struct CommandRunner<X> {
    executor: X,
}

impl<X: Fn(&[String]) -> Result<InvocationResult, SpawnError>> CommandRunner<X> {
    /// The executor that spawns the child processes.
    pub closed spec fn executor(&self) -> X {
        self.executor
    }

    /// The executor may be called with the argument vector `argv`.
    pub open spec fn accepts(&self, argv: Seq<Seq<char>>) -> bool {
        forall|tokens: &[String]|
            tokens.deep_view() == argv ==> #[trigger] call_requires(self.executor(), (tokens,))
    }

    /// `report` is a possible answer of the executor to the argument vector
    /// `argv`.
    pub open spec fn may_report(
        &self,
        argv: Seq<Seq<char>>,
        report: Result<InvocationResult, SpawnError>,
    ) -> bool {
        exists|tokens: &[String]|
            tokens.deep_view() == argv && #[trigger] call_ensures(
                self.executor(),
                (tokens,),
                report,
            )
    }

    /// [`run`](Self::run) may be called on `tool` and `request`: the
    /// installer may be called with the tool's name, and the executor with the
    /// argument vector of the call. The executor is called only after a
    /// successful installation, so nothing is asked of it where the installer
    /// cannot succeed.
    pub open spec fn can_run<P: Fn(&str) -> Result<(), InstallError>>(
        &self,
        tool: &ToolSpec<P>,
        request: InvocationRequestView,
    ) -> bool {
        &&& tool.installable()
        &&& tool.can_install() ==> self.accepts(argv_of(tool@, request))
    }

    /// `result` is a possible result of [`run`](Self::run) on `tool` and
    /// `request`: the installer answered for the tool's name, the executor, if
    /// the installation succeeded, answered for the argument vector of the
    /// call, and `result` is what the two answers yield.
    pub open spec fn may_return<P: Fn(&str) -> Result<(), InstallError>>(
        &self,
        tool: &ToolSpec<P>,
        request: InvocationRequestView,
        result: Result<InvocationResultView, ExecError>,
    ) -> bool {
        exists|installed: Result<(), InstallError>, report: Result<InvocationResult, SpawnError>|
            #![trigger tool.may_reply(installed), ok_view(report)]
            {
                &&& tool.may_reply(installed)
                &&& installed is Ok ==> self.may_report(argv_of(tool@, request), report)
                &&& result == run_result(installed, ok_view(report))
            }
    }

    /// A runner that spawns its child processes through `executor`.
    pub fn new(executor: X) -> (runner: Self)
        ensures
            runner.executor() == executor,
    {
        CommandRunner { executor }
    }

    /// Asks the tool's installer to make the tool available, and hands back
    /// its answer.
    pub fn ensure_installed<P: Fn(&str) -> Result<(), InstallError>>(
        &self,
        tool: &ToolSpec<P>,
    ) -> (installed: Result<(), InstallError>)
        requires
            tool.installable(),
        ensures
            tool.may_reply(installed),
    {
        assert(tool.installer() == tool.installer);
        (tool.installer)(tool.name())
    }

    /// Ensures that the tool is installed, then executes it with the
    /// arguments of `request` and returns what it wrote to standard output.
    /// A failed installation ends the call: no child process is spawned.
    pub fn run<P: Fn(&str) -> Result<(), InstallError>>(
        &self,
        tool: &ToolSpec<P>,
        request: InvocationRequest,
    ) -> (result: Result<InvocationResult, ExecError>)
        requires
            self.can_run(tool, request@),
        ensures
            self.may_return(tool, request@, ok_view(result)),
            result matches Ok(r) ==> r.exit_code == 0,
    {
        let installed = self.ensure_installed(tool);
        match plan(tool.name(), &request, installed) {
            Err(e) => {
                proof {
                    let report: Result<InvocationResult, SpawnError> = Err(SpawnError::NotFound);
                    assert(run_result(installed, ok_view(report)) is Err);
                }
                Err(e)
            },
            Ok(argv) => {
                let tokens = argv.as_slice();
                assert(tokens.deep_view() == argv.deep_view());
                assert(tool.can_install() && self.executor() == self.executor);
                let report = (self.executor)(tokens);
                let ghost reported = report;
                let result = classify(report);
                assert(self.may_report(argv_of(tool@, request@), reported));
                result
            },
        }
    }
}

/// If the installation succeeds and the child process exits with code 0, the
/// call returns the child's result, standard output included, unchanged.
pub proof fn lemma_success_returns_stdout(
    installed: Result<(), InstallError>,
    written: InvocationResultView,
)
    requires
        installed is Ok,
        written.exit_code == 0,
    ensures
        run_result(installed, Ok(written)) == Ok::<InvocationResultView, ExecError>(written),
{
}

/// If the child process exits with a code other than 0, the call fails with
/// `NonZeroExit` and that very code, and so never returns `Ok`.
pub proof fn lemma_nonzero_exit_is_reported(
    installed: Result<(), InstallError>,
    written: InvocationResultView,
)
    requires
        installed is Ok,
        written.exit_code != 0,
    ensures
        run_result(installed, Ok(written)) == Err::<InvocationResultView, ExecError>(
            ExecError::NonZeroExit(written.exit_code),
        ),
{
}

/// After a failed installation there is no argument vector to spawn, and the
/// call fails with `NotFound` whatever the executor would have reported.
pub proof fn lemma_install_failure_short_circuits(
    name: Seq<char>,
    request: InvocationRequestView,
    installed: Result<(), InstallError>,
    report: Result<InvocationResultView, SpawnError>,
)
    requires
        installed is Err,
    ensures
        plan_of(name, request, installed) is Err,
        run_result(installed, report) == Err::<InvocationResultView, ExecError>(
            ExecError::NotFound,
        ),
{
}

/// Every outcome of a call has its own cause: success is an installation
/// followed by a clean exit, `NonZeroExit` an installation followed by an exit
/// with that code, `IOFailure` an installation followed by a failure to spawn
/// or to capture, and `NotFound` a failed installation or a binary that the
/// executor did not find.
pub proof fn lemma_each_outcome_has_its_cause(
    installed: Result<(), InstallError>,
    report: Result<InvocationResultView, SpawnError>,
)
    ensures
        run_result(installed, report) is Ok <==> installed is Ok && report is Ok
            && report->Ok_0.exit_code == 0,
        run_result(installed, report) is Ok ==> run_result(installed, report) == Ok::<
            InvocationResultView,
            ExecError,
        >(report->Ok_0),
        run_result(installed, report) matches Err(ExecError::NonZeroExit(_)) <==> installed is Ok
            && report is Ok && report->Ok_0.exit_code != 0,
        run_result(installed, report) matches Err(ExecError::NonZeroExit(code)) ==> code
            == report->Ok_0.exit_code,
        run_result(installed, report) == Err::<InvocationResultView, ExecError>(
            ExecError::IOFailure,
        ) <==> installed is Ok && report == Err::<InvocationResultView, SpawnError>(
            SpawnError::IOFailure,
        ),
        run_result(installed, report) == Err::<InvocationResultView, ExecError>(
            ExecError::NotFound,
        ) <==> installed is Err || report == Err::<InvocationResultView, SpawnError>(
            SpawnError::NotFound,
        ),
{
}

/// For a tool whose installer cannot succeed, a call may be made with any
/// executor at all, even one that may never be called, and every result of
/// such a call is `NotFound`.
pub proof fn lemma_uninstallable_tool_needs_no_executor<
    P: Fn(&str) -> Result<(), InstallError>,
    X: Fn(&[String]) -> Result<InvocationResult, SpawnError>,
>(
    runner: &CommandRunner<X>,
    tool: &ToolSpec<P>,
    request: InvocationRequestView,
    result: Result<InvocationResultView, ExecError>,
)
    requires
        tool.installable(),
        !tool.can_install(),
    ensures
        runner.can_run(tool, request),
        runner.may_return(tool, request, result) ==> result == Err::<
            InvocationResultView,
            ExecError,
        >(ExecError::NotFound),
{
}

} // verus!
