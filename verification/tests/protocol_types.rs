use debai::protocol::{
    clone_actions, ActionCategory, IntentAction, Response, ResponseResult, RiskLevel,
};

#[test]
fn risk_levels_are_ordered_as_declared() {
    let levels = [RiskLevel::Low, RiskLevel::Medium, RiskLevel::High, RiskLevel::Critical, RiskLevel::Unknown];
    for (i, a) in levels.iter().enumerate() {
        assert_eq!(a.rank() as usize, i);
        for (j, b) in levels.iter().enumerate() {
            assert_eq!(a.exceeds(b), i > j);
            assert_eq!(a.exceeds(b), a > b);
        }
    }
    assert_eq!(RiskLevel::Critical.debug_name(), format!("{:?}", RiskLevel::Critical));
    assert_eq!(ActionCategory::NetworkConfiguration.debug_name(), format!("{:?}", ActionCategory::NetworkConfiguration));
}

#[test]
fn responses_echo_their_request() {
    let ok = Response::success(5, ResponseResult::with_status("success", "done"));
    assert_eq!((ok.jsonrpc.as_str(), ok.id), ("2.0", 5));
    assert!(ok.error.is_none());
    let r = ok.result.unwrap();
    assert_eq!((r.status.as_str(), r.output.as_str(), r.sandbox_path.as_str()), ("success", "done", ""));
    let err = Response::failure(6, -1, "bad".to_string());
    assert!(err.result.is_none());
    assert_eq!(err.error.unwrap().message, "bad");
}

#[test]
fn actions_clone_exactly() {
    let v = vec![IntentAction {
        category: ActionCategory::ServiceControl,
        command: "systemctl status".to_string(),
        risk_level: RiskLevel::Medium,
        explanation: "x".to_string(),
    }];
    let c = clone_actions(&v);
    assert_eq!(c[0].command, v[0].command);
    assert_eq!(c[0].risk_level, v[0].risk_level);
}
