use debai::policy::{
    default_max_direct_execution_risk, first_loaded_policy, normalize_command,
    verify_and_sanitize_actions, Policy, RiskOverrideRule, ALLOWED_NOTE, BLOCKED_NOTE,
};
use debai::protocol::{ActionCategory, IntentAction, RiskLevel};

fn proposed(cmd: &str, category: ActionCategory, risk: RiskLevel) -> IntentAction {
    IntentAction {
        category,
        command: cmd.to_string(),
        risk_level: risk,
        explanation: "why".to_string(),
    }
}

fn custom_policy() -> Policy {
    Policy {
        blocked_commands: vec!["Shutdown".to_string()],
        allowed_commands: vec!["LS -LA".to_string()],
        risk_overrides: vec![
            RiskOverrideRule {
                pattern: "curl".to_string(),
                risk_level: RiskLevel::High,
                category: Some(ActionCategory::NetworkConfiguration),
            },
            RiskOverrideRule {
                pattern: "CURL localhost".to_string(),
                risk_level: RiskLevel::Low,
                category: None,
            },
        ],
        max_direct_execution_risk: RiskLevel::High,
    }
}

#[test]
fn built_in_policy() {
    let p = Policy::default();
    assert_eq!(p.blocked_commands, vec!["rm -rf /", "dd if=", "mkfs."]);
    assert!(p.allowed_commands.is_empty());
    assert!(p.risk_overrides.is_empty());
    assert_eq!(p.max_direct_execution_risk, RiskLevel::Medium);
    assert_eq!(default_max_direct_execution_risk(), RiskLevel::Medium);
}

#[test]
fn blocked_pattern_makes_action_critical() {
    let p = Policy::default();
    let mut actions = vec![proposed("  sudo RM -RF / --no-preserve-root ", ActionCategory::Unknown, RiskLevel::Low)];
    verify_and_sanitize_actions(&p, &mut actions);
    assert_eq!(actions[0].risk_level, RiskLevel::Critical);
    assert_eq!(actions[0].explanation, format!("{}why", BLOCKED_NOTE));
    assert_eq!(
        actions[0].explanation,
        "[BLOCKED BY POLICY ENGINE] This command matches an explicitly blocked pattern in the security policy! Original: why"
    );
    assert_eq!(actions[0].command, "  sudo RM -RF / --no-preserve-root ");
    assert_eq!(actions[0].category, ActionCategory::Unknown);
}

#[test]
fn allowed_command_becomes_low_risk() {
    let p = custom_policy();
    let mut actions = vec![proposed(" ls -la\n", ActionCategory::ReadFilesystem, RiskLevel::High)];
    verify_and_sanitize_actions(&p, &mut actions);
    assert_eq!(actions[0].risk_level, RiskLevel::Low);
    assert_eq!(actions[0].explanation, format!("{}why", ALLOWED_NOTE));
}

#[test]
fn blocked_wins_over_allowed() {
    let mut p = custom_policy();
    p.allowed_commands.push("shutdown now".to_string());
    let mut actions = vec![proposed("shutdown now", ActionCategory::ServiceControl, RiskLevel::Low)];
    verify_and_sanitize_actions(&p, &mut actions);
    assert_eq!(actions[0].risk_level, RiskLevel::Critical);
}

#[test]
fn overrides_apply_in_order_and_accumulate() {
    let p = custom_policy();
    let mut actions = vec![proposed("curl localhost:8080", ActionCategory::Unknown, RiskLevel::Medium)];
    verify_and_sanitize_actions(&p, &mut actions);
    assert_eq!(actions[0].risk_level, RiskLevel::Low);
    assert_eq!(actions[0].category, ActionCategory::NetworkConfiguration);
    assert_eq!(
        actions[0].explanation,
        "[OS POLICY OVERRIDE] Risk re-classified to Low. Original: [OS POLICY OVERRIDE] Risk re-classified to High. Original: why"
    );
}

#[test]
fn unknown_categories_are_guessed_from_words() {
    let p = Policy::default();
    let mut actions = vec![
        proposed("apt-get install git", ActionCategory::Unknown, RiskLevel::Medium),
        proposed("SYSTEMCTL restart nginx", ActionCategory::Unknown, RiskLevel::Medium),
        proposed("ip addr", ActionCategory::Unknown, RiskLevel::Low),
        proposed("date", ActionCategory::Unknown, RiskLevel::Low),
        proposed("apt install x", ActionCategory::WriteFilesystem, RiskLevel::Low),
        proposed("dpkg", ActionCategory::Unknown, RiskLevel::Low),
    ];
    verify_and_sanitize_actions(&p, &mut actions);
    assert_eq!(actions[0].category, ActionCategory::PackageManagement);
    assert_eq!(actions[1].category, ActionCategory::ServiceControl);
    assert_eq!(actions[2].category, ActionCategory::NetworkConfiguration);
    assert_eq!(actions[3].category, ActionCategory::Unknown);
    assert_eq!(actions[4].category, ActionCategory::WriteFilesystem);
    assert_eq!(actions[5].category, ActionCategory::Unknown);
    for a in &actions {
        assert_eq!(a.explanation, "why");
    }
}

#[test]
fn commands_are_trimmed_then_lowercased() {
    assert_eq!(normalize_command("  LS -La \n"), "ls -la");
    assert_eq!(normalize_command("ÄRGER"), "ärger");
}

#[test]
fn first_loadable_policy_wins() {
    let chosen = first_loaded_policy(vec![None, Some(custom_policy()), Some(Policy::default())]);
    assert_eq!(chosen.max_direct_execution_risk, RiskLevel::High);
    let fallback = first_loaded_policy(vec![None, None]);
    assert_eq!(fallback.blocked_commands.len(), 3);
    assert_eq!(fallback.max_direct_execution_risk, RiskLevel::Medium);
}
