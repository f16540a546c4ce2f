use debai::protocol::{Method, Params, Request};
use debai::sandbox::{
    after_copy, begin_sandbox_request, commit_copy_args, components_of, finish_cleanup,
    finish_commit, first_copy, paths_equal, CopyStep, SandboxRegistry, SandboxStep,
};
use std::path::Path;

fn sandbox_req(method: Method, path: &str) -> Request {
    Request {
        jsonrpc: "2.0".to_string(),
        id: 9,
        method,
        params: Params { query: String::new(), actions: vec![], dry_run: false, sandbox_path: path.to_string() },
    }
}

#[test]
fn path_equality_agrees_with_std() {
    let paths = ["", "/", "//", "/tmp/a", "/tmp/a/", "/tmp//a", "/tmp/./a", "tmp/a", "./tmp/a", ".", "./", "a/.", "..", "/tmp/../a", "a/b/c/"];
    for a in paths {
        for b in paths {
            assert_eq!(paths_equal(a, b), Path::new(a) == Path::new(b), "{:?} {:?}", a, b);
        }
    }
    assert_eq!(components_of("/tmp//x/./y/"), vec!["/", "tmp", "x", "y"]);
    assert_eq!(components_of("./x"), vec![".", "x"]);
}

#[test]
fn registry_tracks_active_sandboxes() {
    let mut reg = SandboxRegistry::new();
    reg.register("/tmp/sb1".to_string());
    reg.register("/tmp/sb2".to_string());
    assert!(reg.is_active("/tmp/sb1/"));
    assert!(!reg.is_active("/tmp/sb3"));
    reg.release("/tmp//sb1");
    assert!(!reg.is_active("/tmp/sb1"));
    assert!(reg.is_active("/tmp/sb2"));
    assert_eq!(reg.paths(), &vec!["/tmp/sb2".to_string()]);
}

#[test]
fn inactive_sandbox_is_rejected() {
    let reg = SandboxRegistry::new();
    match begin_sandbox_request(&reg, &sandbox_req(Method::CommitSandbox, "/tmp/x")) {
        SandboxStep::Reject(r) => {
            assert_eq!(r.id, 9);
            assert!(r.result.is_none());
            let e = r.error.unwrap();
            assert_eq!(e.code, -32602);
            assert_eq!(e.message, "Invalid or inactive sandbox path provided.");
        }
        _ => panic!("accepted an unknown sandbox"),
    }
}

#[test]
fn commit_and_cleanup_release_the_sandbox() {
    let mut reg = SandboxRegistry::new();
    reg.register("/tmp/a".to_string());
    reg.register("/tmp/b".to_string());
    match begin_sandbox_request(&reg, &sandbox_req(Method::CommitSandbox, "/tmp/a")) {
        SandboxStep::Commit(p) => assert_eq!(p, "/tmp/a"),
        _ => panic!("expected a commit"),
    }
    match begin_sandbox_request(&reg, &sandbox_req(Method::CleanupSandbox, "/tmp/b")) {
        SandboxStep::Cleanup(p) => assert_eq!(p, "/tmp/b"),
        _ => panic!("expected a cleanup"),
    }
    let r = finish_commit(&mut reg, 4, "/tmp/a", false);
    let res = r.result.unwrap();
    assert_eq!(res.status, "failure");
    assert_eq!(res.output, "Sandbox committed successfully.");
    assert_eq!(r.jsonrpc, "2.0");
    let r = finish_cleanup(&mut reg, 5, "/tmp/b");
    let res = r.result.unwrap();
    assert_eq!(res.status, "success");
    assert_eq!(res.output, "Sandbox cleaned up successfully.");
    assert!(reg.paths().is_empty());
}

#[test]
fn commit_copies_the_upper_layer() {
    assert_eq!(commit_copy_args("/tmp/sb", false), vec!["-aT", "/tmp/sb/upper/", "/"]);
    assert_eq!(
        commit_copy_args("/tmp/sb", true),
        vec!["-RT", "--no-preserve=ownership,timestamps", "/tmp/sb/upper/", "/"]
    );
}

#[test]
fn commit_falls_back_once() {
    match first_copy("/tmp/sb") {
        CopyStep::Copy { args, fallback } => {
            assert_eq!(args, vec!["-aT", "/tmp/sb/upper/", "/"]);
            assert!(!fallback);
        }
        CopyStep::Done(_) => panic!("no copy"),
    }
    assert!(matches!(after_copy("/tmp/sb", false, true), CopyStep::Done(true)));
    match after_copy("/tmp/sb", false, false) {
        CopyStep::Copy { args, fallback } => {
            assert_eq!(args, vec!["-RT", "--no-preserve=ownership,timestamps", "/tmp/sb/upper/", "/"]);
            assert!(fallback);
        }
        CopyStep::Done(_) => panic!("no fallback"),
    }
    assert!(matches!(after_copy("/tmp/sb", true, false), CopyStep::Done(false)));
    assert!(matches!(after_copy("/tmp/sb", true, true), CopyStep::Done(true)));
}
