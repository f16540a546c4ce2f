use debai::execution::{
    announced_sandboxes, plan_action, plugin_blocked_result, sandbox_launcher, ActionPlan,
    ExecutionRun,
};
use debai::policy::Policy;
use debai::protocol::{ActionCategory, ExecutionResult, IntentAction, RiskLevel};
use debai::sandbox::SandboxRegistry;

fn at_risk(cmd: &str, risk: RiskLevel) -> IntentAction {
    IntentAction {
        category: ActionCategory::Unknown,
        command: cmd.to_string(),
        risk_level: risk,
        explanation: String::new(),
    }
}

fn blocked_stderr(plan: ActionPlan) -> String {
    match plan {
        ActionPlan::Blocked(r) => {
            assert!(!r.success);
            assert_eq!(r.exit_code, None);
            assert_eq!(r.stdout, "");
            r.stderr
        }
        ActionPlan::Run(_) => panic!("expected a refusal"),
    }
}

#[test]
fn host_run_above_limit_is_refused() {
    let p = Policy::default();
    let msg = blocked_stderr(plan_action(&p, &at_risk("rm x", RiskLevel::High), false, true));
    assert_eq!(
        msg,
        "Security Policy Blocked: Direct execution on host is denied because the risk level (High) exceeds the policy limit (Medium). Please use [d]ry-run in sandbox to test this action."
    );
    let msg = blocked_stderr(plan_action(&p, &at_risk("x", RiskLevel::Unknown), false, true));
    assert!(msg.contains("(Unknown) exceeds the policy limit (Medium)"));
}

#[test]
fn critical_is_refused_even_under_a_high_limit() {
    let mut p = Policy::default();
    p.max_direct_execution_risk = RiskLevel::Unknown;
    let msg = blocked_stderr(plan_action(&p, &at_risk("mkfs.ext4 /dev/sda", RiskLevel::Critical), false, false));
    assert_eq!(
        msg,
        "Security Policy Blocked: Critical-risk actions cannot be executed directly on the host system under any circumstances."
    );
}

#[test]
fn dry_runs_go_to_the_sandbox() {
    let p = Policy::default();
    match plan_action(&p, &at_risk("mkfs.ext4 /dev/sda", RiskLevel::Critical), true, true) {
        ActionPlan::Run(c) => {
            assert_eq!(c.program, "scripts/sandbox.sh");
            assert_eq!(c.args, vec!["--persist", "mkfs.ext4 /dev/sda"]);
        }
        _ => panic!("dry run refused"),
    }
    match plan_action(&p, &at_risk("ls", RiskLevel::Low), true, false) {
        ActionPlan::Run(c) => assert_eq!(c.program, "/usr/local/bin/debai-sandbox"),
        _ => panic!("dry run refused"),
    }
    assert_eq!(sandbox_launcher(true), "scripts/sandbox.sh");
}

#[test]
fn host_runs_go_through_the_shell() {
    let p = Policy::default();
    match plan_action(&p, &at_risk("ls -la", RiskLevel::Medium), false, true) {
        ActionPlan::Run(c) => {
            assert_eq!(c.program, "sh");
            assert_eq!(c.args, vec!["-c", "ls -la"]);
        }
        _ => panic!("host run refused"),
    }
}

#[test]
fn sandbox_directories_are_read_from_output() {
    let out = "starting\nSANDBOX_DIR: /tmp/sb1 \r\nSANDBOX_DIR:    \nSANDBOX_DIR: SANDBOX_DIR: /tmp/sb2\nxSANDBOX_DIR: /nope";
    assert_eq!(announced_sandboxes(out), vec!["/tmp/sb1", "/tmp/sb2"]);
    assert!(announced_sandboxes("").is_empty());
}

#[test]
fn run_records_and_reports() {
    let mut reg = SandboxRegistry::new();
    let mut run = ExecutionRun::new();
    run.record_output(&mut reg, "a", Some(0), "SANDBOX_DIR: /tmp/one\nSANDBOX_DIR: \n".to_string(), String::new(), true);
    assert_eq!(reg.paths(), &vec!["/tmp/one".to_string()]);
    run.record_output(&mut reg, "b", Some(0), "no marker".to_string(), String::new(), true);
    assert_eq!(reg.paths().len(), 1);
    let r = ExecutionRun::new().finish();
    assert_eq!(r.status, "success");
    let mut copy = ExecutionRun::new();
    copy.record_output(&mut reg, "a", Some(0), "SANDBOX_DIR: /tmp/one\n".to_string(), String::new(), true);
    let ok = copy.finish();
    assert_eq!(ok.status, "success");
    assert_eq!(ok.output, "Execution completed.");
    assert_eq!(ok.sandbox_path, "/tmp/one");
    run.record_spawn_failure("c", "No such file or directory");
    run.record_blocked(ExecutionResult {
        command: "d".to_string(),
        exit_code: None,
        stdout: String::new(),
        stderr: "no".to_string(),
        success: false,
    });
    let done = run.finish();
    assert_eq!(done.status, "failure");
    assert_eq!(done.sandbox_path, "/tmp/one");
    assert_eq!(done.execution_results.len(), 4);
    assert_eq!(done.execution_results[2].stderr, "Failed to start command process: No such file or directory");
    assert!(done.steps.is_empty() && done.actions.is_empty());
}

#[test]
fn failed_command_fails_the_run() {
    let mut reg = SandboxRegistry::new();
    let mut run = ExecutionRun::new();
    run.record_output(&mut reg, "false", Some(1), String::new(), "err".to_string(), false);
    assert_eq!(run.finish().status, "failure");
}

#[test]
fn plugin_refusal_result() {
    let r = plugin_blocked_result("Plugin 'guard' denied execution.");
    assert_eq!(r.status, "failure");
    assert_eq!(r.output, "Execution blocked by plugin: Plugin 'guard' denied execution.");
    assert_eq!(r.execution_results.len(), 1);
    assert_eq!(r.execution_results[0].command, "Plugin Hook");
    assert_eq!(
        r.execution_results[0].stderr,
        "Blocked by plugin pre_execute hook: Plugin 'guard' denied execution."
    );
    assert_eq!(r.sandbox_path, "");
}
