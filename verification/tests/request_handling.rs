use debai::cache::{CacheEntry, LlmResponse, QueryCache};
use debai::policy::Policy;
use debai::protocol::{ActionCategory, IntentAction, Method, Params, Request, RiskLevel};
use debai::sandbox::SandboxRegistry;
use debai::service::{
    begin_model_request, begin_request, complete_model_request, completion_text, decimal_text,
    extract_completion, model_status_check, parse_error_response, prompts_for, route,
    status_text, ModelStep, RequestStep, Route, EXPLAIN_SYSTEM_PROMPT, PLAN_SYSTEM_PROMPT,
};

fn ask(method: Method, query: &str, id: u64) -> Request {
    Request {
        jsonrpc: "2.0".to_string(),
        id,
        method,
        params: Params { query: query.to_string(), actions: vec![], dry_run: false, sandbox_path: String::new() },
    }
}

fn model_answer() -> LlmResponse {
    LlmResponse {
        status: "success".to_string(),
        output: "It lists files.".to_string(),
        steps: vec!["Run it".to_string()],
        actions: vec![IntentAction {
            category: ActionCategory::Unknown,
            command: "rm -rf /".to_string(),
            risk_level: RiskLevel::Low,
            explanation: "danger".to_string(),
        }],
    }
}

#[test]
fn requests_are_routed_by_method() {
    assert_eq!(route(Method::ExecuteActions), Route::Execute);
    assert_eq!(route(Method::CommitSandbox), Route::Sandbox);
    assert_eq!(route(Method::CleanupSandbox), Route::Sandbox);
    assert_eq!(route(Method::ExplainCommand), Route::Model);
    assert_eq!(route(Method::GeneratePlan), Route::Model);
}

#[test]
fn prompts_carry_the_raw_query() {
    let (sys, user) = prompts_for(Method::ExplainCommand, " ls -la ");
    assert_eq!(sys, EXPLAIN_SYSTEM_PROMPT);
    assert_eq!(user, "Explain this command:  ls -la ");
    assert_eq!(prompts_for(Method::ExploreDir, "/etc").1, "Explore this directory: /etc");
    assert_eq!(prompts_for(Method::SysQuery, "is nginx running?").1, "Query: is nginx running?");
    let (sys, user) = prompts_for(Method::GeneratePlan, "install postgresql");
    assert_eq!(user, "Plan task: install postgresql");
    assert!(sys.starts_with("You are DebAI, an execution planner service."));
    assert_eq!(sys, PLAN_SYSTEM_PROMPT);
    assert!(PLAN_SYSTEM_PROMPT.contains("\n  \"steps\": [\"Step 1\"],\n"));
}

#[test]
fn cache_miss_then_hit() {
    let policy = Policy::default();
    let mut cache = QueryCache::new();
    let query = match begin_model_request(&cache, &policy, &ask(Method::ExplainCommand, "  ls -LA ", 1)) {
        ModelStep::Ask(q) => {
            assert_eq!(q.query, "ls -LA");
            assert_eq!(q.user_prompt, "Explain this command:   ls -LA ");
            assert_eq!(q.method, Method::ExplainCommand);
            q
        }
        ModelStep::Answer(_) => panic!("empty cache answered"),
    };
    let (first, stored) = complete_model_request(&mut cache, &policy, 1, query.query, query.method, Ok(model_answer()));
    assert!(stored);
    let first = first.result.unwrap();
    assert_eq!(first.actions[0].risk_level, RiskLevel::Critical);
    // The cache keeps the model's answer as it came.
    assert_eq!(cache.entries.len(), 1);
    assert_eq!(cache.entries[0].response.actions[0].risk_level, RiskLevel::Low);
    assert_eq!(cache.entries[0].response.actions[0].explanation, "danger");

    match begin_model_request(&cache, &policy, &ask(Method::ExplainCommand, "LS -la", 7)) {
        ModelStep::Answer(r) => {
            assert_eq!(r.id, 7);
            let res = r.result.unwrap();
            assert_eq!(res.output, "It lists files.");
            assert_eq!(res.steps, vec!["Run it"]);
            assert_eq!(res.actions[0].risk_level, RiskLevel::Critical);
            assert_eq!(res.actions[0].explanation, first.actions[0].explanation);
        }
        ModelStep::Ask(_) => panic!("cached answer missed"),
    }
    // Another method is another question.
    assert!(matches!(
        begin_model_request(&cache, &policy, &ask(Method::SysQuery, "ls -la", 8)),
        ModelStep::Ask(_)
    ));
}

#[test]
fn oldest_cache_entry_wins() {
    let mut cache = QueryCache::new();
    let mut older = model_answer();
    older.output = "older".to_string();
    cache.insert(CacheEntry { query: "Q".to_string(), method: Method::SysQuery, response: older });
    cache.insert(CacheEntry { query: "q".to_string(), method: Method::SysQuery, response: model_answer() });
    assert_eq!(cache.lookup("q", Method::SysQuery), Some(0));
    assert_eq!(cache.lookup("q", Method::GeneratePlan), None);
}

#[test]
fn failed_inference_is_an_internal_error() {
    let policy = Policy::default();
    let mut cache = QueryCache::new();
    let (r, stored) = complete_model_request(
        &mut cache,
        &policy,
        3,
        "q".to_string(),
        Method::SysQuery,
        Err("connection refused".to_string()),
    );
    assert!(!stored);
    assert!(r.result.is_none());
    let e = r.error.unwrap();
    assert_eq!(e.code, -32603);
    assert_eq!(e.message, "Internal model inference error: connection refused");
    assert!(cache.entries.is_empty());
}

#[test]
fn malformed_request_line() {
    let r = parse_error_response("expected value at line 1 column 1");
    assert_eq!(r.id, 0);
    assert_eq!(r.jsonrpc, "2.0");
    let e = r.error.unwrap();
    assert_eq!(e.code, -32700);
    assert_eq!(e.message, "Parse error: expected value at line 1 column 1");
}

#[test]
fn completion_content_is_extracted() {
    let body = r#"{"choices":[{"message":{"role":"assistant","content":"{\"status\":\"success\"}"}}]}"#;
    assert_eq!(extract_completion(body.as_bytes()), Ok("{\"status\":\"success\"}".to_string()));
    assert_eq!(
        extract_completion(r#"{"choices":[]}"#.as_bytes()),
        Err("Failed to extract content from Ollama completions".to_string())
    );
    assert_eq!(
        extract_completion(r#"{"choices":[{"message":{"content":42}}]}"#.as_bytes()),
        Err("Failed to extract content from Ollama completions".to_string())
    );
    assert_eq!(extract_completion(b"not json"), Err("error decoding response body".to_string()));
    assert_eq!(
        extract_completion(r#"{"choices":[{"message":{"role":"assistant"}}, {"message":{"content":"second"}}]}"#.as_bytes()),
        Err("Failed to extract content from Ollama completions".to_string())
    );
    assert_eq!(completion_text(Ok(Some("x".to_string()))), Ok("x".to_string()));
    assert_eq!(completion_text(Err(())), Err("error decoding response body".to_string()));
}

#[test]
fn model_server_status() {
    assert_eq!(model_status_check(200), Ok(()));
    assert_eq!(model_status_check(204), Ok(()));
    assert_eq!(
        model_status_check(404),
        Err("Ollama server returned error status: 404 Not Found".to_string())
    );
    assert_eq!(
        model_status_check(500),
        Err(format!("Ollama server returned error status: {}", reqwest::StatusCode::from_u16(500).unwrap()))
    );
    for code in [100u16, 199, 300, 302, 418, 451, 599, 999] {
        let expected = reqwest::StatusCode::from_u16(code).unwrap().to_string();
        assert_eq!(status_text(code), expected);
    }
    assert_eq!(decimal_text(0), "0");
    assert_eq!(decimal_text(65535), "65535");
}

#[test]
fn dispatcher_steps() {
    let policy = Policy::default();
    let cache = QueryCache::new();
    let reg = SandboxRegistry::new();
    match begin_request(&cache, &reg, &policy, ask(Method::CleanupSandbox, "", 11)) {
        RequestStep::Reply(r) => {
            assert_eq!(r.id, 11);
            assert_eq!(r.error.unwrap().code, -32602);
        }
        _ => panic!("inactive sandbox accepted"),
    }
    match begin_request(&cache, &reg, &policy, ask(Method::ExecuteActions, "", 12)) {
        RequestStep::Execute { id, actions, dry_run } => {
            assert_eq!(id, 12);
            assert!(actions.is_empty());
            assert!(!dry_run);
        }
        _ => panic!("expected execution"),
    }
    match begin_request(&cache, &reg, &policy, ask(Method::SysQuery, " disk? ", 13)) {
        RequestStep::Ask { id, question } => {
            assert_eq!(id, 13);
            assert_eq!(question.query, "disk?");
            assert_eq!(question.user_prompt, "Query:  disk? ");
        }
        _ => panic!("expected a model question"),
    }
}
