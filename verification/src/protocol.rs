//! The JSON-RPC protocol spoken between the client and the daemon: requests,
//! responses, proposed actions and their execution results, each with a
//! mathematical view over `Seq<char>` in place of its strings.
use vstd::prelude::*;
use crate::text::{owned, string_views};

verus! {

/// The protocol version every message carries.
pub const JSONRPC_VERSION: &'static str = "2.0";

/// The operation a request asks for.
#[derive(Clone, Copy, Debug, PartialEq, Eq, Structural)]
pub enum Method {
    ExplainCommand,
    ExploreDir,
    SysQuery,
    GeneratePlan,
    ExecuteActions,
    CommitSandbox,
    CleanupSandbox,
}

/// What kind of system change an action makes.
#[derive(Clone, Copy, Debug, PartialEq, Eq, Structural)]
pub enum ActionCategory {
    ReadFilesystem,
    WriteFilesystem,
    PackageManagement,
    ServiceControl,
    NetworkConfiguration,
    Unknown,
}

/// How dangerous an action is. The variants are ordered as declared, so
/// `Unknown` ranks above `Critical`.
#[derive(Clone, Copy, Debug, PartialEq, Eq, PartialOrd, Ord, Structural)]
pub enum RiskLevel {
    Low,
    Medium,
    High,
    Critical,
    Unknown,
}

/// The position of a risk level in declaration order.
pub open spec fn risk_rank(r: RiskLevel) -> nat {
    match r {
        RiskLevel::Low => 0,
        RiskLevel::Medium => 1,
        RiskLevel::High => 2,
        RiskLevel::Critical => 3,
        RiskLevel::Unknown => 4,
    }
}

/// Risk levels are totally ordered by their rank: two levels have the same
/// rank only if they are the same level.
pub proof fn law_risk_ranks_are_distinct(a: RiskLevel, b: RiskLevel)
    ensures
        risk_rank(a) == risk_rank(b) <==> a == b,
{
}

/// The name of a risk level as `Debug` prints it.
pub open spec fn risk_name(r: RiskLevel) -> Seq<char> {
    match r {
        RiskLevel::Low => "Low"@,
        RiskLevel::Medium => "Medium"@,
        RiskLevel::High => "High"@,
        RiskLevel::Critical => "Critical"@,
        RiskLevel::Unknown => "Unknown"@,
    }
}

/// The name of a category as `Debug` prints it.
pub open spec fn category_name(c: ActionCategory) -> Seq<char> {
    match c {
        ActionCategory::ReadFilesystem => "ReadFilesystem"@,
        ActionCategory::WriteFilesystem => "WriteFilesystem"@,
        ActionCategory::PackageManagement => "PackageManagement"@,
        ActionCategory::ServiceControl => "ServiceControl"@,
        ActionCategory::NetworkConfiguration => "NetworkConfiguration"@,
        ActionCategory::Unknown => "Unknown"@,
    }
}

impl RiskLevel {
    /// The position of this level in declaration order.
    pub fn rank(&self) -> (r: u8)
        ensures
            r == risk_rank(*self),
    {
        match self {
            RiskLevel::Low => 0,
            RiskLevel::Medium => 1,
            RiskLevel::High => 2,
            RiskLevel::Critical => 3,
            RiskLevel::Unknown => 4,
        }
    }

    /// Whether this level is strictly above `limit` (`self > limit`).
    pub fn exceeds(&self, limit: &RiskLevel) -> (r: bool)
        ensures
            r == (risk_rank(*self) > risk_rank(*limit)),
    {
        self.rank() > limit.rank()
    }

    /// The `Debug` name of this level.
    pub fn debug_name(&self) -> (r: &'static str)
        ensures
            r@ == risk_name(*self),
    {
        match self {
            RiskLevel::Low => "Low",
            RiskLevel::Medium => "Medium",
            RiskLevel::High => "High",
            RiskLevel::Critical => "Critical",
            RiskLevel::Unknown => "Unknown",
        }
    }
}

impl ActionCategory {
    /// The `Debug` name of this category.
    pub fn debug_name(&self) -> (r: &'static str)
        ensures
            r@ == category_name(*self),
    {
        match self {
            ActionCategory::ReadFilesystem => "ReadFilesystem",
            ActionCategory::WriteFilesystem => "WriteFilesystem",
            ActionCategory::PackageManagement => "PackageManagement",
            ActionCategory::ServiceControl => "ServiceControl",
            ActionCategory::NetworkConfiguration => "NetworkConfiguration",
            ActionCategory::Unknown => "Unknown",
        }
    }
}

/// A command the model proposes, with its classification.
#[derive(Debug)]
pub struct IntentAction {
    pub category: ActionCategory,
    pub command: String,
    pub risk_level: RiskLevel,
    pub explanation: String,
}

/// The mathematical value of an [`IntentAction`].
pub struct ActionView {
    pub category: ActionCategory,
    pub command: Seq<char>,
    pub risk_level: RiskLevel,
    pub explanation: Seq<char>,
}

impl View for IntentAction {
    type V = ActionView;

    open spec fn view(&self) -> ActionView {
        ActionView {
            category: self.category,
            command: self.command@,
            risk_level: self.risk_level,
            explanation: self.explanation@,
        }
    }
}

impl Clone for IntentAction {
    fn clone(&self) -> (r: Self)
        ensures
            r@ == self@,
    {
        IntentAction {
            category: self.category,
            command: self.command.clone(),
            risk_level: self.risk_level,
            explanation: self.explanation.clone(),
        }
    }
}

/// The views of a sequence of actions.
pub open spec fn action_views(v: Seq<IntentAction>) -> Seq<ActionView> {
    v.map_values(|a: IntentAction| a@)
}

/// A copy of a list of actions.
pub fn clone_actions(v: &Vec<IntentAction>) -> (r: Vec<IntentAction>)
    ensures
        action_views(r@) == action_views(v@),
{
    let mut r: Vec<IntentAction> = Vec::new();
    for i in 0..v.len()
        invariant
            r@.len() == i,
            forall|k: int| 0 <= k < i ==> #[trigger] r@[k]@ == v@[k]@,
    {
        r.push(v[i].clone());
    }
    r
}

/// A copy of a list of strings.
pub fn clone_strings(v: &Vec<String>) -> (r: Vec<String>)
    ensures
        string_views(r@) == string_views(v@),
{
    let mut r: Vec<String> = Vec::new();
    for i in 0..v.len()
        invariant
            r@.len() == i,
            forall|k: int| 0 <= k < i ==> #[trigger] r@[k]@ == v@[k]@,
    {
        r.push(v[i].clone());
    }
    r
}

/// The outcome of running one action.
#[derive(Debug)]
pub struct ExecutionResult {
    pub command: String,
    pub exit_code: Option<i32>,
    pub stdout: String,
    pub stderr: String,
    pub success: bool,
}

/// The mathematical value of an [`ExecutionResult`].
pub struct ExecutionView {
    pub command: Seq<char>,
    pub exit_code: Option<i32>,
    pub stdout: Seq<char>,
    pub stderr: Seq<char>,
    pub success: bool,
}

impl View for ExecutionResult {
    type V = ExecutionView;

    open spec fn view(&self) -> ExecutionView {
        ExecutionView {
            command: self.command@,
            exit_code: self.exit_code,
            stdout: self.stdout@,
            stderr: self.stderr@,
            success: self.success,
        }
    }
}

impl Clone for ExecutionResult {
    fn clone(&self) -> (r: Self)
        ensures
            r@ == self@,
    {
        ExecutionResult {
            command: self.command.clone(),
            exit_code: self.exit_code,
            stdout: self.stdout.clone(),
            stderr: self.stderr.clone(),
            success: self.success,
        }
    }
}

/// The views of a sequence of execution results.
pub open spec fn execution_views(v: Seq<ExecutionResult>) -> Seq<ExecutionView> {
    v.map_values(|e: ExecutionResult| e@)
}

/// A copy of a list of execution results.
pub fn clone_results(v: &Vec<ExecutionResult>) -> (r: Vec<ExecutionResult>)
    ensures
        execution_views(r@) == execution_views(v@),
{
    let mut r: Vec<ExecutionResult> = Vec::new();
    for i in 0..v.len()
        invariant
            r@.len() == i,
            forall|k: int| 0 <= k < i ==> #[trigger] r@[k]@ == v@[k]@,
    {
        r.push(v[i].clone());
    }
    r
}

/// The parameters of a request.
#[derive(Debug)]
pub struct Params {
    pub query: String,
    pub actions: Vec<IntentAction>,
    pub dry_run: bool,
    pub sandbox_path: String,
}

/// The mathematical value of [`Params`].
pub struct ParamsView {
    pub query: Seq<char>,
    pub actions: Seq<ActionView>,
    pub dry_run: bool,
    pub sandbox_path: Seq<char>,
}

impl View for Params {
    type V = ParamsView;

    open spec fn view(&self) -> ParamsView {
        ParamsView {
            query: self.query@,
            actions: action_views(self.actions@),
            dry_run: self.dry_run,
            sandbox_path: self.sandbox_path@,
        }
    }
}

/// A request from the client.
#[derive(Debug)]
pub struct Request {
    pub jsonrpc: String,
    pub id: u64,
    pub method: Method,
    pub params: Params,
}

/// The mathematical value of a [`Request`].
pub struct RequestView {
    pub jsonrpc: Seq<char>,
    pub id: u64,
    pub method: Method,
    pub params: ParamsView,
}

impl View for Request {
    type V = RequestView;

    open spec fn view(&self) -> RequestView {
        RequestView {
            jsonrpc: self.jsonrpc@,
            id: self.id,
            method: self.method,
            params: self.params@,
        }
    }
}

/// The successful outcome of a request.
#[derive(Debug)]
pub struct ResponseResult {
    pub status: String,
    pub output: String,
    pub steps: Vec<String>,
    pub actions: Vec<IntentAction>,
    pub execution_results: Vec<ExecutionResult>,
    pub sandbox_path: String,
}

/// The mathematical value of a [`ResponseResult`].
pub struct ResultView {
    pub status: Seq<char>,
    pub output: Seq<char>,
    pub steps: Seq<Seq<char>>,
    pub actions: Seq<ActionView>,
    pub execution_results: Seq<ExecutionView>,
    pub sandbox_path: Seq<char>,
}

impl View for ResponseResult {
    type V = ResultView;

    open spec fn view(&self) -> ResultView {
        ResultView {
            status: self.status@,
            output: self.output@,
            steps: string_views(self.steps@),
            actions: action_views(self.actions@),
            execution_results: execution_views(self.execution_results@),
            sandbox_path: self.sandbox_path@,
        }
    }
}

/// The failed outcome of a request.
#[derive(Debug)]
pub struct ResponseError {
    pub code: i32,
    pub message: String,
}

/// The mathematical value of a [`ResponseError`].
pub struct ErrorView {
    pub code: i32,
    pub message: Seq<char>,
}

impl View for ResponseError {
    type V = ErrorView;

    open spec fn view(&self) -> ErrorView {
        ErrorView { code: self.code, message: self.message@ }
    }
}

/// The daemon's answer to a request.
#[derive(Debug)]
pub struct Response {
    pub jsonrpc: String,
    pub id: u64,
    pub result: Option<ResponseResult>,
    pub error: Option<ResponseError>,
}

/// The mathematical value of a [`Response`].
pub struct ResponseView {
    pub jsonrpc: Seq<char>,
    pub id: u64,
    pub result: Option<ResultView>,
    pub error: Option<ErrorView>,
}

impl View for Response {
    type V = ResponseView;

    open spec fn view(&self) -> ResponseView {
        ResponseView {
            jsonrpc: self.jsonrpc@,
            id: self.id,
            result: match self.result {
                Some(r) => Some(r@),
                None => None,
            },
            error: match self.error {
                Some(e) => Some(e@),
                None => None,
            },
        }
    }
}

/// A result with the given status, output, steps and actions, no execution
/// results and no sandbox.
pub open spec fn plain_result(
    status: Seq<char>,
    output: Seq<char>,
    steps: Seq<Seq<char>>,
    actions: Seq<ActionView>,
) -> ResultView {
    ResultView {
        status,
        output,
        steps,
        actions,
        execution_results: seq![],
        sandbox_path: seq![],
    }
}

/// A successful response to request `id`.
pub open spec fn success_view(id: u64, result: ResultView) -> ResponseView {
    ResponseView { jsonrpc: JSONRPC_VERSION@, id, result: Some(result), error: None }
}

/// An error response to request `id`.
pub open spec fn error_view(id: u64, code: i32, message: Seq<char>) -> ResponseView {
    ResponseView {
        jsonrpc: JSONRPC_VERSION@,
        id,
        result: None,
        error: Some(ErrorView { code, message }),
    }
}

/// `r` is a well-formed reply to request `id`: it carries the protocol
/// version and the id, and exactly one of a result and an error.
pub open spec fn is_reply_to(r: ResponseView, id: u64) -> bool {
    &&& r.jsonrpc == JSONRPC_VERSION@
    &&& r.id == id
    &&& (r.result is Some) != (r.error is Some)
}

/// Successful and error responses are well-formed replies.
pub proof fn law_built_responses_are_replies(id: u64, result: ResultView, code: i32, message: Seq<char>)
    ensures
        is_reply_to(success_view(id, result), id),
        is_reply_to(error_view(id, code, message), id),
{
}

impl ResponseResult {
    /// A result with no steps, actions, execution results or sandbox.
    pub fn with_status(status: &str, output: &str) -> (r: ResponseResult)
        ensures
            r@ == plain_result(status@, output@, seq![], seq![]),
    {
        let r = ResponseResult {
            status: owned(status),
            output: owned(output),
            steps: Vec::new(),
            actions: Vec::new(),
            execution_results: Vec::new(),
            sandbox_path: String::new(),
        };
        assert(r@.steps =~= seq![]);
        assert(r@.actions =~= seq![]);
        assert(r@.execution_results =~= seq![]);
        r
    }
}

impl Response {
    /// The successful response to request `id`.
    pub fn success(id: u64, result: ResponseResult) -> (r: Response)
        ensures
            r@ == success_view(id, result@),
            is_reply_to(r@, id),
    {
        Response { jsonrpc: owned(JSONRPC_VERSION), id, result: Some(result), error: None }
    }

    /// The error response to request `id`.
    pub fn failure(id: u64, code: i32, message: String) -> (r: Response)
        ensures
            r@ == error_view(id, code, message@),
            is_reply_to(r@, id),
    {
        Response {
            jsonrpc: owned(JSONRPC_VERSION),
            id,
            result: None,
            error: Some(ResponseError { code, message }),
        }
    }
}

} // verus!
