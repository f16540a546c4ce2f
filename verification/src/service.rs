//! Request handling in the daemon: which handler a request goes to, how a
//! model question is answered from the cache or put to the model, and the
//! responses to malformed input and failed inference.
use vstd::prelude::*;
use crate::cache::{entry_matches, first_match, CacheEntry, EntryView, LlmResponse, LlmView, QueryCache};
use crate::policy::{sanitized, verify_and_sanitize_actions, Policy, PolicyView};
use crate::protocol::{
    action_views, clone_actions, clone_strings, error_view, is_reply_to, plain_result,
    success_view, ActionView, IntentAction, Method, Request, RequestView, Response,
    ResponseResult, ResponseView, ResultView,
};
use crate::sandbox::{
    begin_sandbox_request, cleanup_reply, commit_reply, sandbox_step, SandboxRegistry,
    SandboxStep, SandboxStepView,
};
use crate::text::{joined, eq_ignoring_ascii_case, owned, trim_text, trimmed};

verus! {

/// The error code for a request line that is not a valid request.
pub const PARSE_ERROR: i32 = -32700;

/// Starts the message for a request line that is not a valid request; the
/// parser's complaint follows.
pub const PARSE_ERROR_PREFIX: &'static str = "Parse error: ";

/// The error code for a failed model call.
pub const INTERNAL_ERROR: i32 = -32603;

/// Starts the message for a failed model call; the cause follows.
pub const MODEL_FAILURE_PREFIX: &'static str = "Internal model inference error: ";

/// The cause reported when the model's reply holds no completion text.
pub const MISSING_CONTENT: &'static str = "Failed to extract content from Ollama completions";

/// The handler a request goes to.
#[derive(Debug, Clone, Copy, PartialEq, Eq, Structural)]
pub enum Route {
    /// Run the request's actions.
    Execute,
    /// Commit or clean up a sandbox.
    Sandbox,
    /// Ask the model (or the cache).
    Model,
}

/// The method is answered by the model.
pub open spec fn is_model_method(m: Method) -> bool {
    m == Method::ExplainCommand || m == Method::ExploreDir || m == Method::SysQuery || m
        == Method::GeneratePlan
}

/// The handler for each method.
pub open spec fn route_of(m: Method) -> Route {
    if m == Method::ExecuteActions {
        Route::Execute
    } else if m == Method::CommitSandbox || m == Method::CleanupSandbox {
        Route::Sandbox
    } else {
        Route::Model
    }
}

/// The handler a request with this method goes to.
pub fn route(method: Method) -> (r: Route)
    ensures
        r == route_of(method),
{
    match method {
        Method::ExecuteActions => Route::Execute,
        Method::CommitSandbox | Method::CleanupSandbox => Route::Sandbox,
        _ => Route::Model,
    }
}

/// The system prompt for explaining a command.
pub const EXPLAIN_SYSTEM_PROMPT: &'static str = "You are DebAI, a command explainer service. Explain the user's shell command including its purpose, arguments/flags, and safety considerations. Respond ONLY with a JSON object of this structure: { \"status\": \"success\", \"output\": \"Markdown explanation text\", \"steps\": [], \"actions\": [ { \"category\": \"read_filesystem\", \"command\": \"command name\", \"risk_level\": \"low\", \"explanation\": \"explanation\" } ] } (category must be one of: read_filesystem, write_filesystem, package_management, service_control, network_configuration, unknown. risk_level must be one of: low, medium, high, critical).";

/// The system prompt for exploring a directory.
pub const EXPLORE_SYSTEM_PROMPT: &'static str = "You are DebAI, a directory explorer service. Explain the role of the user's directory path in a standard Linux system (FHS) and what files/subdirectories are typically found there. Respond ONLY with a JSON object of this structure: { \"status\": \"success\", \"output\": \"Markdown directory summary\", \"steps\": [], \"actions\": [ { \"category\": \"read_filesystem\", \"command\": \"command\", \"risk_level\": \"low\", \"explanation\": \"explanation\" } ] } (category must be one of: read_filesystem, write_filesystem, package_management, service_control, network_configuration, unknown. risk_level must be one of: low, medium, high, critical).";

/// The system prompt for a system query.
pub const QUERY_SYSTEM_PROMPT: &'static str = "You are DebAI, a system query service. Answer the user's question about Linux logs, services, packages, or system state in Markdown. You MUST output a JSON object containing the keys: \"status\" (string), \"output\" (string Markdown), \"steps\" (array of strings), and \"actions\" (array of proposed action objects representing commands to run).
Example structure:
{
  \"status\": \"success\",
  \"output\": \"Markdown answer\",
  \"steps\": [\"Check date\"],
  \"actions\": [
    {
      \"category\": \"read_filesystem\",
      \"command\": \"date\",
      \"risk_level\": \"low\",
      \"explanation\": \"Checks system date\"
    }
  ]
}";

/// The system prompt for planning a task.
pub const PLAN_SYSTEM_PROMPT: &'static str = "You are DebAI, an execution planner service. Produce a step-by-step plan to accomplish the user's task. You MUST output a JSON object containing the keys: \"status\" (string), \"output\" (string Markdown), \"steps\" (array of strings), and \"actions\" (array of proposed action objects representing commands to run).
Example structure:
{
  \"status\": \"success\",
  \"output\": \"Markdown description\",
  \"steps\": [\"Step 1\"],
  \"actions\": [
    {
      \"category\": \"package_management\",
      \"command\": \"apt-get install git\",
      \"risk_level\": \"medium\",
      \"explanation\": \"Installs git package\"
    }
  ]
}";

/// The system prompt for a model method.
pub open spec fn system_prompt(m: Method) -> Seq<char> {
    if m == Method::ExplainCommand {
        EXPLAIN_SYSTEM_PROMPT@
    } else if m == Method::ExploreDir {
        EXPLORE_SYSTEM_PROMPT@
    } else if m == Method::SysQuery {
        QUERY_SYSTEM_PROMPT@
    } else {
        PLAN_SYSTEM_PROMPT@
    }
}

/// What the user prompt of a model method puts before the query.
pub open spec fn user_prompt_lead(m: Method) -> Seq<char> {
    if m == Method::ExplainCommand {
        "Explain this command: "@
    } else if m == Method::ExploreDir {
        "Explore this directory: "@
    } else if m == Method::SysQuery {
        "Query: "@
    } else {
        "Plan task: "@
    }
}

/// The two prompts for a model method and the query as the client sent it.
pub fn prompts_for(method: Method, query: &str) -> (r: (String, String))
    requires
        is_model_method(method),
    ensures
        r.0@ == system_prompt(method),
        r.1@ == user_prompt_lead(method) + query@,
{
    match method {
        Method::ExplainCommand => (owned(EXPLAIN_SYSTEM_PROMPT), joined("Explain this command: ", query)),
        Method::ExploreDir => (owned(EXPLORE_SYSTEM_PROMPT), joined("Explore this directory: ", query)),
        Method::SysQuery => (owned(QUERY_SYSTEM_PROMPT), joined("Query: ", query)),
        _ => (owned(PLAN_SYSTEM_PROMPT), joined("Plan task: ", query)),
    }
}

/// A question to put to the model.
#[derive(Debug)]
pub struct ModelQuery {
    pub system_prompt: String,
    pub user_prompt: String,
    /// The trimmed query, under which the answer is cached.
    pub query: String,
    pub method: Method,
}

/// What to do with a model request.
#[derive(Debug)]
pub enum ModelStep {
    /// Answer at once from the cache.
    Answer(Response),
    /// Ask the model, then finish with [`complete_model_request`].
    Ask(ModelQuery),
}

/// The mathematical value of a [`ModelStep`].
pub enum ModelStepView {
    Answer(ResponseView),
    Ask(Seq<char>, Seq<char>, Seq<char>, Method),
}

impl View for ModelStep {
    type V = ModelStepView;

    open spec fn view(&self) -> ModelStepView {
        match self {
            ModelStep::Answer(r) => ModelStepView::Answer(r@),
            ModelStep::Ask(q) => ModelStepView::Ask(
                q.system_prompt@,
                q.user_prompt@,
                q.query@,
                q.method,
            ),
        }
    }
}

/// The client's view of a model answer under `policy`: its status, output and
/// steps, and its actions after the policy engine.
pub open spec fn answer_from(policy: PolicyView, id: u64, answer: LlmView) -> ResponseView {
    success_view(
        id,
        plain_result(
            answer.status,
            answer.output,
            answer.steps,
            answer.actions.map_values(|a: ActionView| sanitized(policy, a)),
        ),
    )
}

/// The step for a model request, given the cache.
pub open spec fn model_step(cache: Seq<EntryView>, policy: PolicyView, req: RequestView) -> ModelStepView {
    let q = trimmed(req.params.query);
    match first_match(cache, q, req.method) {
        Some(i) => ModelStepView::Answer(answer_from(policy, req.id, cache[i].response)),
        None => ModelStepView::Ask(
            system_prompt(req.method),
            user_prompt_lead(req.method) + req.params.query,
            q,
            req.method,
        ),
    }
}

/// The client's view of `answer` under `policy`.
pub fn answer_response(policy: &Policy, id: u64, answer: &LlmResponse) -> (r: Response)
    ensures
        r@ == answer_from(policy@, id, answer@),
{
    let mut actions = clone_actions(&answer.actions);
    verify_and_sanitize_actions(policy, &mut actions);
    let result = ResponseResult {
        status: answer.status.clone(),
        output: answer.output.clone(),
        steps: clone_strings(&answer.steps),
        actions,
        execution_results: Vec::new(),
        sandbox_path: String::new(),
    };
    assert(result@.execution_results =~= seq![]);
    Response::success(id, result)
}

/// Decides how to answer a model request: from the oldest cached answer to
/// its trimmed query (ignoring ASCII case) and method, or by asking the model.
pub fn begin_model_request(cache: &QueryCache, policy: &Policy, request: &Request) -> (r: ModelStep)
    requires
        is_model_method(request.method),
    ensures
        r@ == model_step(cache@, policy@, request@),
{
    let query = trim_text(request.params.query.as_str());
    match cache.lookup(query, request.method) {
        Some(i) => {
            ModelStep::Answer(answer_response(policy, request.id, &cache.entries[i].response))
        },
        None => {
            let (system_prompt, user_prompt) = prompts_for(request.method, request.params.query.as_str());
            ModelStep::Ask(
                ModelQuery {
                    system_prompt,
                    user_prompt,
                    query: owned(query),
                    method: request.method,
                },
            )
        },
    }
}

/// The reply to request `id` once the model call gave `outcome`.
pub open spec fn model_reply(policy: PolicyView, id: u64, outcome: Result<LlmView, Seq<char>>) -> ResponseView {
    match outcome {
        Ok(answer) => answer_from(policy, id, answer),
        Err(cause) => error_view(id, INTERNAL_ERROR, MODEL_FAILURE_PREFIX@ + cause),
    }
}

/// The view of a model call's outcome.
pub open spec fn outcome_view(outcome: Result<LlmResponse, String>) -> Result<LlmView, Seq<char>> {
    match outcome {
        Ok(answer) => Ok(answer@),
        Err(cause) => Err(cause@),
    }
}

/// Finishes a model request with what the model call gave: an answer is
/// cached as it came (before the policy engine) and returned after it; a
/// failure is reported as an internal error and caches nothing. The flag
/// says whether the cache changed (and so needs saving).
pub fn complete_model_request(
    cache: &mut QueryCache,
    policy: &Policy,
    id: u64,
    query: String,
    method: Method,
    outcome: Result<LlmResponse, String>,
) -> (r: (Response, bool))
    ensures
        r.0@ == model_reply(policy@, id, outcome_view(outcome)),
        is_reply_to(r.0@, id),
        r.1 == outcome is Ok,
        match outcome {
            Ok(answer) => final(cache)@ == old(cache)@.push(
                EntryView { query: query@, method, response: answer@ },
            ),
            Err(_) => final(cache)@ == old(cache)@,
        },
{
    match outcome {
        Ok(answer) => {
            let r = answer_response(policy, id, &answer);
            cache.insert(CacheEntry { query, method, response: answer });
            (r, true)
        },
        Err(cause) => (Response::failure(id, INTERNAL_ERROR, joined(MODEL_FAILURE_PREFIX, cause.as_str())), false),
    }
}

/// The response to a request line that is not a valid request.
pub fn parse_error_response(complaint: &str) -> (r: Response)
    ensures
        r@ == error_view(0, PARSE_ERROR, PARSE_ERROR_PREFIX@ + complaint@),
        is_reply_to(r@, 0),
{
    Response::failure(0, PARSE_ERROR, joined(PARSE_ERROR_PREFIX, complaint))
}

// ---------------------------------------------------------------------------
// The model's reply
// ---------------------------------------------------------------------------

/// The cause reported when the reply's body is not JSON (the message of
/// the HTTP client's decoding error).
pub const DECODE_FAILURE: &'static str = "error decoding response body";

/// Starts the cause reported when the model server answers with a status
/// outside 200-299; the status follows.
pub const MODEL_STATUS_PREFIX: &'static str = "Ollama server returned error status: ";

/// What `serde_json` finds when it reads `body` as JSON and looks up
/// `value[key0][index][key1][key2]`: `None` if the body is not JSON,
/// otherwise the string there, if there is one.
pub uninterp spec fn json_string_at(
    body: Seq<u8>,
    key0: Seq<char>,
    index: int,
    key1: Seq<char>,
    key2: Seq<char>,
) -> Option<Option<Seq<char>>>;

/// Parses `body` with `serde_json::from_slice` into a `serde_json::Value`,
/// looks up `value[key0][index][key1][key2]` with `Value`'s indexing (which
/// gives `Null` for a missing key, a missing index or a value of another
/// kind) and reads it with `Value::as_str`. The contract claims that the
/// outcome is the named function `json_string_at` of the arguments; a parse
/// error is reported without its text.
#[verifier::external_body]
fn read_json_string(body: &[u8], key0: &str, index: usize, key1: &str, key2: &str) -> (r: Result<
    Option<String>,
    (),
>)
    ensures
        match r {
            Ok(Some(c)) => json_string_at(body@, key0@, index as int, key1@, key2@) == Some(
                Some(c@),
            ),
            Ok(None) => json_string_at(body@, key0@, index as int, key1@, key2@) == Some(
                None::<Seq<char>>,
            ),
            Err(_) => json_string_at(body@, key0@, index as int, key1@, key2@) is None,
        },
{
    match serde_json::from_slice::<serde_json::Value>(body) {
        Ok(v) => Ok(v[key0][index][key1][key2].as_str().map(String::from)),
        Err(_) => Err(()),
    }
}

/// Where a chat completion reply holds the completion text:
/// `choices[0].message.content`.
pub open spec fn completion_lookup(body: Seq<u8>) -> Option<Option<Seq<char>>> {
    json_string_at(body, "choices"@, 0, "message"@, "content"@)
}

/// The completion text, or the cause of failure, given what the reply's
/// body held: a missing text is reported as [`MISSING_CONTENT`], a body that
/// is not JSON as [`DECODE_FAILURE`].
pub fn completion_text(lookup: Result<Option<String>, ()>) -> (r: Result<String, String>)
    ensures
        match lookup {
            Ok(Some(c)) => r matches Ok(t) && t@ == c@,
            Ok(None) => r matches Err(e) && e@ == MISSING_CONTENT@,
            Err(_) => r matches Err(e) && e@ == DECODE_FAILURE@,
        },
{
    match lookup {
        Ok(Some(c)) => Ok(c),
        Ok(None) => Err(owned(MISSING_CONTENT)),
        Err(_) => Err(owned(DECODE_FAILURE)),
    }
}

/// The completion text of the model server's reply body, or the cause of
/// failure.
pub fn extract_completion(body: &[u8]) -> (r: Result<String, String>)
    ensures
        completion_lookup(body@) matches Some(Some(c)) ==> (r matches Ok(t) && t@ == c),
        completion_lookup(body@) == Some(None::<Seq<char>>) ==> (r matches Err(e) && e@
            == MISSING_CONTENT@),
        completion_lookup(body@) is None ==> (r matches Err(e) && e@ == DECODE_FAILURE@),
{
    completion_text(read_json_string(body, "choices", 0, "message", "content"))
}

/// The canonical reason phrase that the HTTP library gives a status code,
/// if it knows one.
pub uninterp spec fn canonical_reason_of(code: u16) -> Option<Seq<char>>;

/// Calls `reqwest::StatusCode::from_u16` and `StatusCode::canonical_reason`.
/// The contract claims that the reason phrase is the named function
/// `canonical_reason_of` of the code (none for a code outside 100-999,
/// which is no status code).
#[verifier::external_body]
fn canonical_reason(code: u16) -> (r: Option<&'static str>)
    ensures
        match r {
            Some(s) => canonical_reason_of(code) == Some(s@),
            None => canonical_reason_of(code) is None,
        },
{
    match reqwest::StatusCode::from_u16(code) {
        Ok(status) => status.canonical_reason(),
        Err(_) => None,
    }
}

/// The decimal digit `d`.
pub open spec fn digit_text(d: int) -> Seq<char> {
    if d == 0 {
        "0"@
    } else if d == 1 {
        "1"@
    } else if d == 2 {
        "2"@
    } else if d == 3 {
        "3"@
    } else if d == 4 {
        "4"@
    } else if d == 5 {
        "5"@
    } else if d == 6 {
        "6"@
    } else if d == 7 {
        "7"@
    } else if d == 8 {
        "8"@
    } else {
        "9"@
    }
}

/// The decimal numeral of `n`.
pub open spec fn decimal(n: nat) -> Seq<char>
    decreases n,
{
    if n < 10 {
        digit_text(n as int)
    } else {
        decimal(n / 10) + digit_text((n % 10) as int)
    }
}

/// A status as the HTTP library prints it: the code, a space, and the
/// reason phrase (or `<unknown status code>`).
pub open spec fn status_line(code: u16) -> Seq<char> {
    decimal(code as nat) + " "@ + match canonical_reason_of(code) {
        Some(reason) => reason,
        None => "<unknown status code>"@,
    }
}

/// The decimal digit `d`.
fn digit(d: u16) -> (r: &'static str)
    requires
        d < 10,
    ensures
        r@ == digit_text(d as int),
{
    match d {
        0 => "0",
        1 => "1",
        2 => "2",
        3 => "3",
        4 => "4",
        5 => "5",
        6 => "6",
        7 => "7",
        8 => "8",
        _ => "9",
    }
}

/// The decimal numeral of `n`.
pub fn decimal_text(n: u16) -> (r: String)
    ensures
        r@ == decimal(n as nat),
    decreases n,
{
    if n < 10 {
        owned(digit(n))
    } else {
        let head = decimal_text(n / 10);
        joined(head.as_str(), digit(n % 10))
    }
}

/// A status as the HTTP library prints it.
pub fn status_text(code: u16) -> (r: String)
    ensures
        r@ == status_line(code),
{
    let head = joined(decimal_text(code).as_str(), " ");
    match canonical_reason(code) {
        Some(reason) => joined(head.as_str(), reason),
        None => joined(head.as_str(), "<unknown status code>"),
    }
}

/// Whether the model server's status lets its reply be read: any status in
/// 200-299 does; any other is reported with the status.
pub fn model_status_check(code: u16) -> (r: Result<(), String>)
    ensures
        200 <= code < 300 ==> r is Ok,
        !(200 <= code < 300) ==> (r matches Err(e) && e@ == MODEL_STATUS_PREFIX@ + status_line(code)),
{
    if 200 <= code && code < 300 {
        Ok(())
    } else {
        let line = status_text(code);
        Err(joined(MODEL_STATUS_PREFIX, line.as_str()))
    }
}

// ---------------------------------------------------------------------------
// The request dispatcher
// ---------------------------------------------------------------------------

/// What to do with a request.
#[derive(Debug)]
pub enum RequestStep {
    /// Send this reply.
    Reply(Response),
    /// Run the actions, then reply with `Response::success` and the result.
    Execute { id: u64, actions: Vec<IntentAction>, dry_run: bool },
    /// Commit the sandbox (see [`crate::sandbox::first_copy`]), remove it,
    /// and reply with [`crate::sandbox::finish_commit`].
    Commit { id: u64, path: String },
    /// Remove the sandbox and reply with [`crate::sandbox::finish_cleanup`].
    Cleanup { id: u64, path: String },
    /// Ask the model and reply with [`complete_model_request`].
    Ask { id: u64, question: ModelQuery },
}

/// The mathematical value of a [`RequestStep`].
pub enum RequestStepView {
    Reply(ResponseView),
    Execute(u64, Seq<ActionView>, bool),
    Commit(u64, Seq<char>),
    Cleanup(u64, Seq<char>),
    Ask(u64, Seq<char>, Seq<char>, Seq<char>, Method),
}

impl View for RequestStep {
    type V = RequestStepView;

    open spec fn view(&self) -> RequestStepView {
        match self {
            RequestStep::Reply(r) => RequestStepView::Reply(r@),
            RequestStep::Execute { id, actions, dry_run } => RequestStepView::Execute(
                *id,
                action_views(actions@),
                *dry_run,
            ),
            RequestStep::Commit { id, path } => RequestStepView::Commit(*id, path@),
            RequestStep::Cleanup { id, path } => RequestStepView::Cleanup(*id, path@),
            RequestStep::Ask { id, question } => RequestStepView::Ask(
                *id,
                question.system_prompt@,
                question.user_prompt@,
                question.query@,
                question.method,
            ),
        }
    }
}

/// The step for a request, given the cache, the active sandboxes and the
/// policy.
pub open spec fn request_step(
    cache: Seq<EntryView>,
    active: Seq<Seq<char>>,
    policy: PolicyView,
    req: RequestView,
) -> RequestStepView {
    match route_of(req.method) {
        Route::Execute => RequestStepView::Execute(req.id, req.params.actions, req.params.dry_run),
        Route::Sandbox => match sandbox_step(active, req) {
            SandboxStepView::Reject(r) => RequestStepView::Reply(r),
            SandboxStepView::Commit(p) => RequestStepView::Commit(req.id, p),
            SandboxStepView::Cleanup(p) => RequestStepView::Cleanup(req.id, p),
        },
        Route::Model => match model_step(cache, policy, req) {
            ModelStepView::Answer(r) => RequestStepView::Reply(r),
            ModelStepView::Ask(s, u, q, m) => RequestStepView::Ask(req.id, s, u, q, m),
        },
    }
}

/// Decides how to handle a request.
pub fn begin_request(
    cache: &QueryCache,
    registry: &SandboxRegistry,
    policy: &Policy,
    request: Request,
) -> (r: RequestStep)
    ensures
        r@ == request_step(cache@, registry@, policy@, request@),
        r matches RequestStep::Reply(resp) ==> is_reply_to(resp@, request.id),
{
    let id = request.id;
    match route(request.method) {
        Route::Execute => RequestStep::Execute {
            id,
            actions: request.params.actions,
            dry_run: request.params.dry_run,
        },
        Route::Sandbox => match begin_sandbox_request(registry, &request) {
            SandboxStep::Reject(r) => RequestStep::Reply(r),
            SandboxStep::Commit(path) => RequestStep::Commit { id, path },
            SandboxStep::Cleanup(path) => RequestStep::Cleanup { id, path },
        },
        Route::Model => match begin_model_request(cache, policy, &request) {
            ModelStep::Answer(r) => RequestStep::Reply(r),
            ModelStep::Ask(question) => RequestStep::Ask { id, question },
        },
    }
}

// ---------------------------------------------------------------------------
// Laws of request handling
// ---------------------------------------------------------------------------

/// Every reply the daemon sends for a request carries the protocol version
/// and the request's id, and exactly one of a result and an error: the
/// replies the dispatcher gives at once, and those it gives after running
/// actions, copying or removing a sandbox, or calling the model, whatever
/// those did; a line that is not a request is answered likewise, with id 0.
pub proof fn law_every_reply_answers_its_request(
    cache: Seq<EntryView>,
    active: Seq<Seq<char>>,
    policy: PolicyView,
    req: RequestView,
    executed: ResultView,
    outcome: Result<LlmView, Seq<char>>,
    copied: bool,
    complaint: Seq<char>,
)
    ensures
        request_step(cache, active, policy, req) matches RequestStepView::Reply(r) ==> is_reply_to(
            r,
            req.id,
        ),
        is_reply_to(success_view(req.id, executed), req.id),
        is_reply_to(model_reply(policy, req.id, outcome), req.id),
        is_reply_to(commit_reply(req.id, copied), req.id),
        is_reply_to(cleanup_reply(req.id), req.id),
        is_reply_to(error_view(0, PARSE_ERROR, PARSE_ERROR_PREFIX@ + complaint), 0),
{
}

/// Every question (explain, explore, system query, plan) is put to the model
/// or answered from the cache, never executed or taken for a sandbox request;
/// only `execute_actions` runs actions, and only a commit or cleanup request
/// goes to the sandbox handler.
pub proof fn law_each_method_reaches_its_handler(
    cache: Seq<EntryView>,
    active: Seq<Seq<char>>,
    policy: PolicyView,
    req: RequestView,
)
    ensures
        is_model_method(req.method) ==> route_of(req.method) == Route::Model,
        (route_of(req.method) == Route::Execute) <==> req.method == Method::ExecuteActions,
        (route_of(req.method) == Route::Sandbox) <==> (req.method == Method::CommitSandbox
            || req.method == Method::CleanupSandbox),
        is_model_method(req.method) ==> (request_step(cache, active, policy, req) is Reply
            || request_step(cache, active, policy, req) is Ask),
        (request_step(cache, active, policy, req) is Execute) <==> req.method
            == Method::ExecuteActions,
        request_step(cache, active, policy, req) is Ask ==> is_model_method(req.method),
        is_model_method(req.method) && first_match(cache, trimmed(req.params.query), req.method)
            is None ==> request_step(cache, active, policy, req) == RequestStepView::Ask(
            req.id,
            system_prompt(req.method),
            user_prompt_lead(req.method) + req.params.query,
            trimmed(req.params.query),
            req.method,
        ),
{
}

/// A question the cache cannot answer goes to the model; once the model has
/// answered it, the same question (its trimmed query equal up to ASCII case,
/// same method) is answered from the cache with the same answer, under the
/// policy in force at that time.
pub proof fn law_answered_questions_are_served_from_cache(
    cache: Seq<EntryView>,
    policy: PolicyView,
    first: RequestView,
    again: RequestView,
    answer: LlmView,
)
    requires
        is_model_method(first.method),
        first_match(cache, trimmed(first.params.query), first.method) is None,
        again.method == first.method,
        eq_ignoring_ascii_case(trimmed(first.params.query), trimmed(again.params.query)),
    ensures
        model_step(cache, policy, first) is Ask,
        model_step(
            cache.push(EntryView { query: trimmed(first.params.query), method: first.method, response: answer }),
            policy,
            again,
        ) == ModelStepView::Answer(answer_from(policy, again.id, answer)),
{
    let q1 = trimmed(first.params.query);
    let q2 = trimmed(again.params.query);
    let e = EntryView { query: q1, method: first.method, response: answer };
    crate::cache::law_lookup_ignores_ascii_case(cache, q1, q2, first.method);
    crate::cache::law_stored_answer_is_found(cache, e, q2);
}

} // verus!
