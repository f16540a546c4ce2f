use debai::client::{
    confirms_commit, default_socket_path, execution_choice, execution_request, indent_block,
    outcome_badge, query_request, risk_badge, sandbox_request,
};
use debai::protocol::{Method, RiskLevel};

#[test]
fn socket_fallbacks() {
    assert_eq!(default_socket_path(true, true), "/run/debai/aid.sock");
    assert_eq!(default_socket_path(false, true), "/tmp/debai_aid.sock");
    assert_eq!(default_socket_path(false, false), "/run/debai/aid.sock");
}

#[test]
fn session_requests() {
    let q = query_request(Method::ExploreDir, "/etc".to_string());
    assert_eq!((q.jsonrpc.as_str(), q.id, q.method), ("2.0", 1, Method::ExploreDir));
    assert_eq!(q.params.query, "/etc");
    assert!(!q.params.dry_run && q.params.actions.is_empty() && q.params.sandbox_path.is_empty());
    let e = execution_request(vec![], true);
    assert_eq!((e.id, e.method, e.params.dry_run), (2, Method::ExecuteActions, true));
    let c = sandbox_request(true, "/tmp/sb".to_string());
    assert_eq!((c.id, c.method), (3, Method::CommitSandbox));
    assert_eq!(c.params.sandbox_path, "/tmp/sb");
    assert_eq!(sandbox_request(false, String::new()).method, Method::CleanupSandbox);
}

#[test]
fn execution_choices() {
    assert_eq!(execution_choice(" E\n"), (true, false));
    assert_eq!(execution_choice("execute"), (true, false));
    assert_eq!(execution_choice(""), (true, true));
    assert_eq!(execution_choice("\n"), (true, true));
    assert_eq!(execution_choice("Dry-Run"), (true, true));
    assert_eq!(execution_choice("dryrun"), (true, true));
    assert_eq!(execution_choice("d"), (true, true));
    assert_eq!(execution_choice("c"), (false, false));
    assert_eq!(execution_choice("yes"), (false, false));
}

#[test]
fn commit_confirmation() {
    assert!(confirms_commit("y\n"));
    assert!(confirms_commit(" YES "));
    assert!(!confirms_commit(""));
    assert!(!confirms_commit("no"));
}

#[test]
fn badges() {
    assert_eq!(risk_badge(RiskLevel::Low), "\x1b[32m[LOW]\x1b[0m");
    assert_eq!(risk_badge(RiskLevel::Critical), "\x1b[1;31m[CRITICAL]\x1b[0m");
    assert_eq!(risk_badge(RiskLevel::Unknown), "\x1b[37m[UNKNOWN]\x1b[0m");
    assert_eq!(outcome_badge(true), "\x1b[32m[SUCCESS]\x1b[0m");
    assert_eq!(outcome_badge(false), "\x1b[31m[FAILED]\x1b[0m");
}

#[test]
fn indented_output_matches_display_rule() {
    for s in ["", "one", "a\nb\n", "\n\nx\n", "  lead\ntrail  \n", "a\r\nb"] {
        assert_eq!(indent_block(s), s.replace('\n', "\n   ").trim(), "{:?}", s);
    }
}
