//! The decisions of the command-line client: which socket to use, the
//! requests it sends, how it reads the user's answers, and how it shows
//! risk levels and command output.
use vstd::prelude::*;
use crate::protocol::{
    action_views, ActionView, IntentAction, Method, Params, ParamsView, Request, RequestView,
    RiskLevel, JSONRPC_VERSION,
};
use crate::text::{lowercase, owned, same_text, trim_text, trimmed, unicode_lowercase};

verus! {

/// The daemon's socket in a system installation.
pub const RUN_SOCKET: &'static str = "/run/debai/aid.sock";

/// The daemon's default socket.
pub const TMP_SOCKET: &'static str = "/tmp/debai_aid.sock";

/// The socket to connect to when none is given: the system socket if it
/// exists, else the default one if it exists, else the system socket.
pub fn default_socket_path(run_socket_exists: bool, tmp_socket_exists: bool) -> (r: &'static str)
    ensures
        r@ == if !run_socket_exists && tmp_socket_exists {
            TMP_SOCKET@
        } else {
            RUN_SOCKET@
        },
{
    if run_socket_exists {
        RUN_SOCKET
    } else if tmp_socket_exists {
        TMP_SOCKET
    } else {
        RUN_SOCKET
    }
}

/// A request with no actions, no dry run and no sandbox.
fn plain_request(id: u64, method: Method, query: String) -> (r: Request)
    ensures
        r@ == (RequestView {
            jsonrpc: JSONRPC_VERSION@,
            id,
            method,
            params: ParamsView {
                query: query@,
                actions: seq![],
                dry_run: false,
                sandbox_path: seq![],
            },
        }),
{
    let r = Request {
        jsonrpc: owned(JSONRPC_VERSION),
        id,
        method,
        params: Params { query, actions: Vec::new(), dry_run: false, sandbox_path: String::new() },
    };
    assert(r@.params.actions =~= seq![]);
    r
}

/// The first request of a session: a question for the model.
pub fn query_request(method: Method, query: String) -> (r: Request)
    ensures
        r@.jsonrpc == JSONRPC_VERSION@,
        r@.id == 1,
        r@.method == method,
        r@.params == (ParamsView {
            query: query@,
            actions: seq![],
            dry_run: false,
            sandbox_path: seq![],
        }),
{
    plain_request(1, method, query)
}

/// The second request: run the proposed actions, in the sandbox or on the
/// host.
pub fn execution_request(actions: Vec<IntentAction>, dry_run: bool) -> (r: Request)
    ensures
        r@.jsonrpc == JSONRPC_VERSION@,
        r@.id == 2,
        r@.method == Method::ExecuteActions,
        r@.params == (ParamsView {
            query: seq![],
            actions: action_views(actions@),
            dry_run,
            sandbox_path: seq![],
        }),
{
    Request {
        jsonrpc: owned(JSONRPC_VERSION),
        id: 2,
        method: Method::ExecuteActions,
        params: Params { query: String::new(), actions, dry_run, sandbox_path: String::new() },
    }
}

/// The third request: commit the sandbox to the host, or discard it.
pub fn sandbox_request(commit: bool, sandbox_path: String) -> (r: Request)
    ensures
        r@.jsonrpc == JSONRPC_VERSION@,
        r@.id == 3,
        r@.method == if commit {
            Method::CommitSandbox
        } else {
            Method::CleanupSandbox
        },
        r@.params == (ParamsView {
            query: seq![],
            actions: seq![],
            dry_run: false,
            sandbox_path: sandbox_path@,
        }),
{
    let method = if commit {
        Method::CommitSandbox
    } else {
        Method::CleanupSandbox
    };
    let r = Request {
        jsonrpc: owned(JSONRPC_VERSION),
        id: 3,
        method,
        params: Params { query: String::new(), actions: Vec::new(), dry_run: false, sandbox_path },
    };
    assert(r@.params.actions =~= seq![]);
    r
}

/// What an answer to "execute, dry-run or cancel?" means, as
/// (execute, dry run): `e`/`execute` runs on the host; `d`, `dry-run`,
/// `dryrun` and the empty answer run in the sandbox; anything else cancels.
pub open spec fn choice_of(answer: Seq<char>) -> (bool, bool) {
    if answer == "e"@ || answer == "execute"@ {
        (true, false)
    } else if answer == "d"@ || answer == "dry-run"@ || answer == "dryrun"@ || answer.len() == 0 {
        (true, true)
    } else {
        (false, false)
    }
}

/// What a normalized (trimmed, lowercased) answer means.
pub fn choice_for(answer: &str) -> (r: (bool, bool))
    ensures
        r == choice_of(answer@),
{
    if same_text(answer, "e") || same_text(answer, "execute") {
        (true, false)
    } else if same_text(answer, "d") || same_text(answer, "dry-run") || same_text(answer, "dryrun")
        || answer.unicode_len() == 0 {
        (true, true)
    } else {
        (false, false)
    }
}

/// What the user's typed answer means, as (execute, dry run).
pub fn execution_choice(input: &str) -> (r: (bool, bool))
    ensures
        r == choice_of(unicode_lowercase(trimmed(input@))),
{
    let answer = lowercase(trim_text(input));
    choice_for(answer.as_str())
}

/// A normalized answer that confirms a commit: `y` or `yes`.
pub open spec fn confirms(answer: Seq<char>) -> bool {
    answer == "y"@ || answer == "yes"@
}

/// Whether a normalized (trimmed, lowercased) answer confirms a commit.
pub fn is_confirmation(answer: &str) -> (r: bool)
    ensures
        r == confirms(answer@),
{
    same_text(answer, "y") || same_text(answer, "yes")
}

/// Whether the user's typed answer confirms a commit.
pub fn confirms_commit(input: &str) -> (r: bool)
    ensures
        r == confirms(unicode_lowercase(trimmed(input@))),
{
    let answer = lowercase(trim_text(input));
    is_confirmation(answer.as_str())
}

/// The colored label of a risk level.
pub open spec fn badge(level: RiskLevel) -> Seq<char> {
    match level {
        RiskLevel::Low => "\x1b[32m[LOW]\x1b[0m"@,
        RiskLevel::Medium => "\x1b[33m[MEDIUM]\x1b[0m"@,
        RiskLevel::High => "\x1b[31m[HIGH]\x1b[0m"@,
        RiskLevel::Critical => "\x1b[1;31m[CRITICAL]\x1b[0m"@,
        RiskLevel::Unknown => "\x1b[37m[UNKNOWN]\x1b[0m"@,
    }
}

/// The colored label of a risk level.
pub fn risk_badge(level: RiskLevel) -> (r: &'static str)
    ensures
        r@ == badge(level),
{
    match level {
        RiskLevel::Low => "\x1b[32m[LOW]\x1b[0m",
        RiskLevel::Medium => "\x1b[33m[MEDIUM]\x1b[0m",
        RiskLevel::High => "\x1b[31m[HIGH]\x1b[0m",
        RiskLevel::Critical => "\x1b[1;31m[CRITICAL]\x1b[0m",
        RiskLevel::Unknown => "\x1b[37m[UNKNOWN]\x1b[0m",
    }
}

/// The colored label of an execution result.
pub fn outcome_badge(success: bool) -> (r: &'static str)
    ensures
        r@ == if success {
            "\x1b[32m[SUCCESS]\x1b[0m"@
        } else {
            "\x1b[31m[FAILED]\x1b[0m"@
        },
{
    if success {
        "\x1b[32m[SUCCESS]\x1b[0m"
    } else {
        "\x1b[31m[FAILED]\x1b[0m"
    }
}

/// `s` with every newline followed by three spaces.
pub open spec fn indented(s: Seq<char>) -> Seq<char>
    decreases s.len(),
{
    if s.len() == 0 {
        seq![]
    } else if s.last() == '\n' {
        indented(s.drop_last()) + "\n   "@
    } else {
        indented(s.drop_last()).push(s.last())
    }
}

/// Command output as the client shows it under a heading: each newline
/// followed by three spaces, then trimmed.
pub fn indent_block(text: &str) -> (r: String)
    ensures
        r@ == trimmed(indented(text@)),
{
    let v = crate::text::chars_of(text);
    let n = v.len();
    let mut out = String::new();
    let mut start: usize = 0;
    let mut i: usize = 0;
    while i < n
        invariant
            v@ == text@,
            n == text@.len(),
            start <= i <= n,
            indented(text@.take(i as int)) == out@ + text@.subrange(start as int, i as int),
        decreases n - i,
    {
        assert(text@.take(i + 1).drop_last() =~= text@.take(i as int));
        if v[i] == '\n' {
            let seg = text.substring_char(start, i);
            out.append(seg);
            out.append("\n   ");
            start = i + 1;
        } else {
            assert(text@.subrange(start as int, i as int).push(text@[i as int]) =~= text@.subrange(
                start as int,
                i + 1,
            ));
        }
        i += 1;
    }
    assert(text@.take(n as int) =~= text@);
    out.append(text.substring_char(start, n));
    owned(trim_text(out.as_str()))
}

// ---------------------------------------------------------------------------
// Laws of the client
// ---------------------------------------------------------------------------

/// Pressing enter without typing anything asks for a dry run in the sandbox.
pub proof fn law_empty_answer_is_dry_run()
    ensures
        choice_of(Seq::<char>::empty()) == (true, true),
{
    reveal_strlit("e");
    reveal_strlit("execute");
}

/// Only an explicit `y` or `yes` (after trimming and lowercasing) commits a
/// sandbox to the host: every other answer, `n`, `no` and the empty answer
/// among them, discards it.
pub proof fn law_commit_needs_explicit_yes(answer: Seq<char>)
    ensures
        confirms(answer) ==> (answer == "y"@ || answer == "yes"@),
        (answer == "y"@ || answer == "yes"@) ==> confirms(answer),
        (answer == "n"@ || answer == "no"@ || answer.len() == 0) ==> !confirms(answer),
{
    reveal_strlit("y");
    reveal_strlit("yes");
    reveal_strlit("n");
    reveal_strlit("no");
    if answer == "n"@ || answer == "no"@ {
        assert(answer[0] != 'y');
    }
}

/// Only an explicit `e` or `execute` runs actions on the host.
pub proof fn law_host_execution_needs_explicit_answer(answer: Seq<char>)
    ensures
        choice_of(answer) == (true, false) <==> (answer == "e"@ || answer == "execute"@),
{
}

} // verus!
