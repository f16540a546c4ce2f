use debai::plugins::{
    denial_message, is_executable_mode, plugin_manager, pre_execute_step, HookReply, PluginInfo,
    PluginManager, PreExecuteResponse,
};
use debai::protocol::{ActionCategory, IntentAction, RiskLevel};

fn one_action(cmd: &str) -> Vec<IntentAction> {
    vec![IntentAction {
        category: ActionCategory::ReadFilesystem,
        command: cmd.to_string(),
        risk_level: RiskLevel::Low,
        explanation: "e".to_string(),
    }]
}

#[test]
fn plugin_directory_choice() {
    assert_eq!(PluginManager::new(true).plugins_dir, "plugins");
    assert_eq!(PluginManager::new(false).plugins_dir, "/usr/share/debai/plugins");
}

#[test]
fn plugin_manager_is_created_once() {
    let mut slot = None;
    let first = plugin_manager(&mut slot, false);
    assert_eq!(first.plugins_dir, "/usr/share/debai/plugins");
    let again = plugin_manager(&mut slot, true);
    assert_eq!(again.plugins_dir, "/usr/share/debai/plugins");
    assert_eq!(slot.unwrap().plugins_dir, "/usr/share/debai/plugins");
}

#[test]
fn executable_bits() {
    assert!(is_executable_mode(0o100755));
    assert!(is_executable_mode(0o001));
    assert!(!is_executable_mode(0o644));
    assert!(!is_executable_mode(0o100666));
}

#[test]
fn hooks_are_declared_by_name() {
    let info = PluginInfo {
        name: "guard".to_string(),
        version: "1".to_string(),
        description: "d".to_string(),
        hooks: vec!["post_execute".to_string()],
    };
    assert!(info.supports_hook("post_execute"));
    assert!(!info.supports_hook("pre_execute"));
}

#[test]
fn pre_execute_outcomes() {
    let deny = HookReply::Replied(PreExecuteResponse {
        status: "deny".to_string(),
        actions: vec![],
        error_message: String::new(),
    });
    assert_eq!(
        pre_execute_step(one_action("ls"), "guard", deny).unwrap_err(),
        "Plugin 'guard' denied execution."
    );
    let deny = HookReply::Replied(PreExecuteResponse {
        status: "deny".to_string(),
        actions: vec![],
        error_message: "not today".to_string(),
    });
    assert_eq!(
        pre_execute_step(one_action("ls"), "guard", deny).unwrap_err(),
        "Plugin 'guard' denied execution: not today"
    );
    let approve = HookReply::Replied(PreExecuteResponse {
        status: "approve".to_string(),
        actions: one_action("ls -l"),
        error_message: String::new(),
    });
    assert_eq!(pre_execute_step(one_action("ls"), "guard", approve).unwrap()[0].command, "ls -l");
    assert_eq!(pre_execute_step(one_action("ls"), "guard", HookReply::Failed).unwrap()[0].command, "ls");
    assert_eq!(pre_execute_step(one_action("ls"), "guard", HookReply::Unreadable).unwrap()[0].command, "ls");
    assert_eq!(denial_message("x", ""), "Plugin 'x' denied execution.");
}
