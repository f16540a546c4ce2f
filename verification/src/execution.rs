//! Execution of approved actions. The daemon runs the commands; this module
//! decides, for each action, whether it may run and how, and folds what the
//! commands reported into the response.
use vstd::prelude::*;
use crate::policy::Policy;
use crate::sandbox::{all_named, SandboxRegistry};
use crate::protocol::{
    execution_views, risk_name, risk_rank, ExecutionResult, ExecutionView, IntentAction,
    ResponseResult, ResultView, RiskLevel,
};
use crate::text::{
    joined, has_prefix, lines_of, owned, starts_with_text, str_views, strip_leading,
    strip_leading_text, text_lines, trim_text, trimmed,
};

verus! {

/// Printed by the sandbox script before the directory it created.
pub const SANDBOX_MARKER: &'static str = "SANDBOX_DIR: ";

/// The sandbox launcher in a source checkout.
pub const LOCAL_SANDBOX_SCRIPT: &'static str = "scripts/sandbox.sh";

/// The installed sandbox launcher.
pub const INSTALLED_SANDBOX_SCRIPT: &'static str = "/usr/local/bin/debai-sandbox";

/// Reported for an action above the policy's risk limit; the two risk level
/// names follow, each closed by the next part.
pub const OVER_LIMIT_MESSAGE_START: &'static str = "Security Policy Blocked: Direct execution on host is denied because the risk level (";

/// Closes the action's risk level in the over-limit message.
pub const OVER_LIMIT_MESSAGE_MIDDLE: &'static str = ") exceeds the policy limit (";

/// Ends the over-limit message.
pub const OVER_LIMIT_MESSAGE_END: &'static str = "). Please use [d]ry-run in sandbox to test this action.";

/// Reported for a critical action that the host may not run.
pub const CRITICAL_MESSAGE: &'static str = "Security Policy Blocked: Critical-risk actions cannot be executed directly on the host system under any circumstances.";

/// Reported when a command could not be started; the cause follows.
pub const SPAWN_FAILURE_PREFIX: &'static str = "Failed to start command process: ";

/// The output of an execution response.
pub const EXECUTION_DONE: &'static str = "Execution completed.";

/// The output of a response to actions that a plugin refused; the refusal follows.
pub const PLUGIN_BLOCK_OUTPUT_PREFIX: &'static str = "Execution blocked by plugin: ";

/// The error text of that response's single result; the refusal follows.
pub const PLUGIN_BLOCK_STDERR_PREFIX: &'static str = "Blocked by plugin pre_execute hook: ";

/// The command that the single result of a plugin refusal names.
pub const PLUGIN_HOOK_COMMAND: &'static str = "Plugin Hook";

/// A program to run and its arguments.
#[derive(Debug)]
pub struct CommandLine {
    pub program: String,
    pub args: Vec<String>,
}

/// What to do with one action.
#[derive(Debug)]
pub enum ActionPlan {
    /// The action may not run; this is its result.
    Blocked(ExecutionResult),
    /// Run this command line and record what it reports.
    Run(CommandLine),
}

/// The mathematical value of an [`ActionPlan`].
pub enum PlanView {
    Blocked(ExecutionView),
    Run(Seq<char>, Seq<Seq<char>>),
}

impl View for ActionPlan {
    type V = PlanView;

    open spec fn view(&self) -> PlanView {
        match self {
            ActionPlan::Blocked(r) => PlanView::Blocked(r@),
            ActionPlan::Run(c) => PlanView::Run(
                c.program@,
                c.args@.map_values(|a: String| a@),
            ),
        }
    }
}

/// A result for a command that never ran.
pub open spec fn refused(command: Seq<char>, stderr: Seq<char>) -> ExecutionView {
    ExecutionView { command, exit_code: None, stdout: seq![], stderr, success: false }
}

/// What an action at `level` is told when the limit is `limit`.
pub open spec fn over_limit_message(level: RiskLevel, limit: RiskLevel) -> Seq<char> {
    OVER_LIMIT_MESSAGE_START@ + risk_name(level) + OVER_LIMIT_MESSAGE_MIDDLE@ + risk_name(limit)
        + OVER_LIMIT_MESSAGE_END@
}

/// The plan for `action`: on the host, an action above the policy's limit
/// and a critical action are refused; otherwise a dry run goes to the
/// sandbox launcher and a real run to `sh -c`.
pub open spec fn plan_for(
    limit: RiskLevel,
    command: Seq<char>,
    level: RiskLevel,
    dry_run: bool,
    local_script: bool,
) -> PlanView {
    if !dry_run && risk_rank(level) > risk_rank(limit) {
        PlanView::Blocked(refused(command, over_limit_message(level, limit)))
    } else if !dry_run && level == RiskLevel::Critical {
        PlanView::Blocked(refused(command, CRITICAL_MESSAGE@))
    } else if dry_run {
        PlanView::Run(
            if local_script {
                LOCAL_SANDBOX_SCRIPT@
            } else {
                INSTALLED_SANDBOX_SCRIPT@
            },
            seq!["--persist"@, command],
        )
    } else {
        PlanView::Run("sh"@, seq!["-c"@, command])
    }
}

/// The sandbox launcher to use.
pub fn sandbox_launcher(local_script_present: bool) -> (r: &'static str)
    ensures
        r@ == if local_script_present {
            LOCAL_SANDBOX_SCRIPT@
        } else {
            INSTALLED_SANDBOX_SCRIPT@
        },
{
    if local_script_present {
        LOCAL_SANDBOX_SCRIPT
    } else {
        INSTALLED_SANDBOX_SCRIPT
    }
}

/// A result for a command that never ran.
fn refusal(command: &str, stderr: String) -> (r: ExecutionResult)
    ensures
        r@ == refused(command@, stderr@),
{
    ExecutionResult {
        command: owned(command),
        exit_code: None,
        stdout: String::new(),
        stderr,
        success: false,
    }
}

/// Decides what to do with `action` under `policy`. `local_script_present`
/// says whether the checkout's sandbox script exists.
pub fn plan_action(
    policy: &Policy,
    action: &IntentAction,
    dry_run: bool,
    local_script_present: bool,
) -> (r: ActionPlan)
    ensures
        r@ == plan_for(
            policy.max_direct_execution_risk,
            action.command@,
            action.risk_level,
            dry_run,
            local_script_present,
        ),
{
    let limit = policy.max_direct_execution_risk;
    let command = action.command.as_str();
    if !dry_run && action.risk_level.exceeds(&limit) {
        let m = joined(OVER_LIMIT_MESSAGE_START, action.risk_level.debug_name());
        let m = joined(m.as_str(), OVER_LIMIT_MESSAGE_MIDDLE);
        let m = joined(m.as_str(), limit.debug_name());
        let m = joined(m.as_str(), OVER_LIMIT_MESSAGE_END);
        return ActionPlan::Blocked(refusal(command, m));
    }
    if !dry_run && action.risk_level == RiskLevel::Critical {
        return ActionPlan::Blocked(refusal(command, owned(CRITICAL_MESSAGE)));
    }
    let mut args: Vec<String> = Vec::new();
    let program = if dry_run {
        args.push(owned("--persist"));
        owned(sandbox_launcher(local_script_present))
    } else {
        args.push(owned("-c"));
        owned("sh")
    };
    args.push(owned(command));
    let r = ActionPlan::Run(CommandLine { program, args });
    assert(r@ == plan_for(limit, action.command@, action.risk_level, dry_run, local_script_present)) by {
        if dry_run {
            assert(args@.map_values(|a: String| a@) =~= seq!["--persist"@, action.command@]);
        } else {
            assert(args@.map_values(|a: String| a@) =~= seq!["-c"@, action.command@]);
        }
    }
    r
}

/// The sandbox directory a marker line names: what follows the marker
/// (repeated markers removed), trimmed.
pub open spec fn marked_dir(line: Seq<char>) -> Seq<char> {
    trimmed(strip_leading(line, SANDBOX_MARKER@))
}

/// The non-empty sandbox directories that marker lines name, in order.
pub open spec fn sandbox_dirs_in(lines: Seq<Seq<char>>) -> Seq<Seq<char>>
    decreases lines.len(),
{
    if lines.len() == 0 {
        seq![]
    } else {
        let prev = sandbox_dirs_in(lines.drop_last());
        let l = lines.last();
        if has_prefix(l, SANDBOX_MARKER@) && marked_dir(l).len() > 0 {
            prev.push(marked_dir(l))
        } else {
            prev
        }
    }
}

/// Every announced sandbox directory is a non-empty path.
proof fn lemma_announced_dirs_are_named(lines: Seq<Seq<char>>)
    ensures
        all_named(sandbox_dirs_in(lines)),
    decreases lines.len(),
{
    if lines.len() > 0 {
        lemma_announced_dirs_are_named(lines.drop_last());
    }
}

/// The sandbox directories that a command's standard output announces.
pub open spec fn sandbox_dirs(stdout: Seq<char>) -> Seq<Seq<char>> {
    sandbox_dirs_in(text_lines(stdout))
}

/// The sandbox directories that `stdout` announces, in order.
pub fn announced_sandboxes(stdout: &str) -> (r: Vec<String>)
    ensures
        r@.map_values(|s: String| s@) == sandbox_dirs(stdout@),
{
    let lines = lines_of(stdout);
    let ghost lv = str_views(lines@);
    let mut found: Vec<String> = Vec::new();
    for i in 0..lines.len()
        invariant
            lv == str_views(lines@),
            lv == text_lines(stdout@),
            found@.map_values(|s: String| s@) == sandbox_dirs_in(lv.take(i as int)),
    {
        let line = lines[i];
        assert(lv.take(i + 1).drop_last() =~= lv.take(i as int));
        if starts_with_text(line, SANDBOX_MARKER) {
            let dir = trim_text(strip_leading_text(line, SANDBOX_MARKER));
            if dir.unicode_len() > 0 {
                let ghost before = found@;
                found.push(owned(dir));
                assert(found@.map_values(|s: String| s@) =~= before.map_values(|s: String| s@).push(
                    dir@,
                ));
            }
        }
    }
    assert(lv.take(lines@.len() as int) =~= lv);
    found
}

/// The record of one execution request in progress.
#[derive(Debug)]
pub struct ExecutionRun {
    pub results: Vec<ExecutionResult>,
    pub sandbox_path: String,
}

/// The mathematical value of an [`ExecutionRun`].
pub struct RunView {
    pub results: Seq<ExecutionView>,
    pub sandbox_path: Seq<char>,
}

impl View for ExecutionRun {
    type V = RunView;

    open spec fn view(&self) -> RunView {
        RunView { results: execution_views(self.results@), sandbox_path: self.sandbox_path@ }
    }
}

/// Every result succeeded.
pub open spec fn all_succeeded(results: Seq<ExecutionView>) -> bool {
    forall|i: int| 0 <= i < results.len() ==> (#[trigger] results[i]).success
}

/// The response to a finished execution request.
pub open spec fn finished(run: RunView) -> ResultView {
    ResultView {
        status: if all_succeeded(run.results) {
            "success"@
        } else {
            "failure"@
        },
        output: EXECUTION_DONE@,
        steps: seq![],
        actions: seq![],
        execution_results: run.results,
        sandbox_path: run.sandbox_path,
    }
}

/// The response to actions that a pre-execute plugin refused with `reason`.
pub open spec fn plugin_blocked(reason: Seq<char>) -> ResultView {
    ResultView {
        status: "failure"@,
        output: PLUGIN_BLOCK_OUTPUT_PREFIX@ + reason,
        steps: seq![],
        actions: seq![],
        execution_results: seq![
            refused(PLUGIN_HOOK_COMMAND@, PLUGIN_BLOCK_STDERR_PREFIX@ + reason),
        ],
        sandbox_path: seq![],
    }
}

/// The response to actions that a pre-execute plugin refused with `reason`.
pub fn plugin_blocked_result(reason: &str) -> (r: ResponseResult)
    ensures
        r@ == plugin_blocked(reason@),
{
    let mut results: Vec<ExecutionResult> = Vec::new();
    results.push(refusal(PLUGIN_HOOK_COMMAND, joined(PLUGIN_BLOCK_STDERR_PREFIX, reason)));
    let r = ResponseResult {
        status: owned("failure"),
        output: joined(PLUGIN_BLOCK_OUTPUT_PREFIX, reason),
        steps: Vec::new(),
        actions: Vec::new(),
        execution_results: results,
        sandbox_path: String::new(),
    };
    assert(r@.steps =~= seq![]);
    assert(r@.actions =~= seq![]);
    assert(r@.execution_results =~= plugin_blocked(reason@).execution_results);
    r
}

impl ExecutionRun {
    /// A run with nothing recorded.
    pub fn new() -> (r: ExecutionRun)
        ensures
            r@.results == Seq::<ExecutionView>::empty(),
            r@.sandbox_path == Seq::<char>::empty(),
    {
        ExecutionRun { results: Vec::new(), sandbox_path: String::new() }
    }

    /// Records the result of an action that did not run.
    pub fn record_blocked(&mut self, result: ExecutionResult)
        ensures
            final(self)@.results == old(self)@.results.push(result@),
            final(self)@.sandbox_path == old(self)@.sandbox_path,
    {
        self.results.push(result);
    }

    /// Records what a command reported. The sandbox directories its output
    /// announces become active sandboxes, in order, and the last of them
    /// becomes the run's sandbox.
    pub fn record_output(
        &mut self,
        registry: &mut SandboxRegistry,
        command: &str,
        exit_code: Option<i32>,
        stdout: String,
        stderr: String,
        success: bool,
    )
        ensures
            final(registry)@ == old(registry)@ + sandbox_dirs(stdout@),
            final(self)@.results == old(self)@.results.push(
                ExecutionView {
                    command: command@,
                    exit_code,
                    stdout: stdout@,
                    stderr: stderr@,
                    success,
                },
            ),
            final(self)@.sandbox_path == if sandbox_dirs(stdout@).len() > 0 {
                sandbox_dirs(stdout@).last()
            } else {
                old(self)@.sandbox_path
            },
    {
        let announced = announced_sandboxes(stdout.as_str());
        proof {
            lemma_announced_dirs_are_named(text_lines(stdout@));
        }
        let ghost start = registry@;
        let ghost dirs = sandbox_dirs(stdout@);
        for k in 0..announced.len()
            invariant
                announced@.map_values(|s: String| s@) == dirs,
                all_named(dirs),
                registry@ == start + dirs.take(k as int),
        {
            assert(dirs[k as int] == announced@[k as int]@);
            registry.register(announced[k].clone());
            assert(dirs.take(k + 1) =~= dirs.take(k as int).push(dirs[k as int]));
        }
        assert(dirs.take(announced@.len() as int) =~= dirs);
        if announced.len() > 0 {
            let last = announced.len() - 1;
            self.sandbox_path = announced[last].clone();
        }
        let ghost before = self.results@;
        self.results.push(
            ExecutionResult { command: owned(command), exit_code, stdout, stderr, success },
        );
        assert(execution_views(self.results@) =~= execution_views(before).push(
            ExecutionView { command: command@, exit_code, stdout: stdout@, stderr: stderr@, success },
        ));
    }

    /// Records that a command could not be started, for the given cause.
    pub fn record_spawn_failure(&mut self, command: &str, cause: &str)
        ensures
            final(self)@.results == old(self)@.results.push(
                refused(command@, SPAWN_FAILURE_PREFIX@ + cause@),
            ),
            final(self)@.sandbox_path == old(self)@.sandbox_path,
    {
        let r = refusal(command, joined(SPAWN_FAILURE_PREFIX, cause));
        self.record_blocked(r);
    }

    /// The response to the finished request: `success` exactly when every
    /// recorded result succeeded.
    pub fn finish(self) -> (r: ResponseResult)
        ensures
            r@ == finished(self@),
    {
        let ghost rv = self@;
        let mut ok = true;
        for i in 0..self.results.len()
            invariant
                rv == self@,
                ok == forall|k: int| 0 <= k < i ==> (#[trigger] rv.results[k]).success,
        {
            assert(rv.results[i as int] == self.results@[i as int]@);
            if !self.results[i].success {
                ok = false;
            }
        }
        let status = if ok {
            owned("success")
        } else {
            owned("failure")
        };
        let r = ResponseResult {
            status,
            output: owned(EXECUTION_DONE),
            steps: Vec::new(),
            actions: Vec::new(),
            execution_results: self.results,
            sandbox_path: self.sandbox_path,
        };
        assert(r@.steps =~= seq![]);
        assert(r@.actions =~= seq![]);
        r
    }
}

// ---------------------------------------------------------------------------
// Laws of execution
// ---------------------------------------------------------------------------

/// A dry run is never refused by the risk gate: it always goes to the sandbox.
pub proof fn law_dry_run_never_blocked(
    limit: RiskLevel,
    command: Seq<char>,
    level: RiskLevel,
    local_script: bool,
)
    ensures
        plan_for(limit, command, level, true, local_script) is Run,
{
}

/// Every dry run goes to the sandbox launcher with `--persist` and the
/// action's command, whatever the action's risk and the policy's limit; the
/// launcher is the checkout's script where it exists, else the installed one.
pub proof fn law_dry_run_goes_to_sandbox_launcher(
    limit: RiskLevel,
    command: Seq<char>,
    level: RiskLevel,
    local_script: bool,
)
    ensures
        plan_for(limit, command, level, true, local_script) == PlanView::Run(
            if local_script {
                "scripts/sandbox.sh"@
            } else {
                "/usr/local/bin/debai-sandbox"@
            },
            seq!["--persist"@, command],
        ),
{
}

/// Only a real run goes to `sh -c`: a plan whose program is `sh` (or whose
/// first argument is `-c`) never comes from a dry run, and a real run that is
/// not refused is exactly `sh -c` with the action's command.
pub proof fn law_only_real_runs_use_the_shell(
    limit: RiskLevel,
    command: Seq<char>,
    level: RiskLevel,
    dry_run: bool,
    local_script: bool,
)
    ensures
        plan_for(limit, command, level, dry_run, local_script) matches PlanView::Run(program, args)
            ==> ((program == "sh"@ || args[0] == "-c"@) ==> !dry_run),
        !dry_run ==> (plan_for(limit, command, level, dry_run, local_script) is Run ==> plan_for(
            limit,
            command,
            level,
            dry_run,
            local_script,
        ) == PlanView::Run("sh"@, seq!["-c"@, command])),
{
    reveal_strlit("sh");
    reveal_strlit("-c");
    reveal_strlit("--persist");
    reveal_strlit("scripts/sandbox.sh");
    reveal_strlit("/usr/local/bin/debai-sandbox");
    if dry_run {
        assert("sh"@ != "scripts/sandbox.sh"@) by {
            assert("sh"@.len() != "scripts/sandbox.sh"@.len());
        }
        assert("sh"@ != "/usr/local/bin/debai-sandbox"@) by {
            assert("sh"@.len() != "/usr/local/bin/debai-sandbox"@.len());
        }
        assert("-c"@ != "--persist"@) by {
            assert("-c"@.len() != "--persist"@.len());
        }
    }
}

/// On the host, a critical action never runs, whatever the policy's limit.
pub proof fn law_critical_never_runs_on_host(limit: RiskLevel, command: Seq<char>, local: bool)
    ensures
        plan_for(limit, command, RiskLevel::Critical, false, local) is Blocked,
{
}

/// On the host, an action runs exactly when its risk is neither above the
/// policy's limit nor critical.
pub proof fn law_host_runs_iff_within_limit(
    limit: RiskLevel,
    command: Seq<char>,
    level: RiskLevel,
    local: bool,
)
    ensures
        (plan_for(limit, command, level, false, local) is Run) <==> (risk_rank(level) <= risk_rank(
            limit,
        ) && level != RiskLevel::Critical),
{
}

/// An execution request reports success exactly when every recorded result
/// succeeded; in particular any refused action makes it fail.
pub proof fn law_status_success_iff_all_succeeded(run: RunView)
    ensures
        (finished(run).status == "success"@) <==> all_succeeded(run.results),
        (exists|i: int| 0 <= i < run.results.len() && !(#[trigger] run.results[i]).success) ==> finished(run).status == "failure"@,
{
    reveal_strlit("success");
    reveal_strlit("failure");
    if !all_succeeded(run.results) {
        assert("success"@[0] != "failure"@[0]);
    }
}

} // verus!
