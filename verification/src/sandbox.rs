//! The registry of sandboxes that dry runs created and that are still waiting
//! to be committed to the host or cleaned up. Paths are compared the way
//! `std::path::Path` compares them: by their components.
use vstd::prelude::*;
use crate::protocol::{
    error_view, is_reply_to, plain_result, success_view, Method, Request, RequestView, Response,
    ResponseView,
};
use crate::text::{chars_of, joined, owned, same_text, string_views};

verus! {

// ---------------------------------------------------------------------------
// Path components
// ---------------------------------------------------------------------------

/// A segment between separators that names a component: not empty and not `.`.
pub open spec fn names_component(g: Seq<char>) -> bool {
    g.len() > 0 && g != "."@
}

/// Scans `s` for `/`: the component-naming segments that a separator closes,
/// and the unterminated rest.
pub open spec fn slash_scan(s: Seq<char>) -> (Seq<Seq<char>>, Seq<char>)
    decreases s.len(),
{
    if s.len() == 0 {
        (seq![], seq![])
    } else {
        let (done, rest) = slash_scan(s.drop_last());
        if s.last() == '/' {
            (
                if names_component(rest) {
                    done.push(rest)
                } else {
                    done
                },
                seq![],
            )
        } else {
            (done, rest.push(s.last()))
        }
    }
}

/// The named segments of `s`, in order.
pub open spec fn named_segments(s: Seq<char>) -> Seq<Seq<char>> {
    let (done, rest) = slash_scan(s);
    if names_component(rest) {
        done.push(rest)
    } else {
        done
    }
}

/// The components of a path (`Path::components`): a root `/` for an
/// absolute path, a `.` for a relative path that starts with `.`, then the
/// named segments; repeated separators, inner `.` segments and a trailing
/// separator make no component.
pub open spec fn path_components(s: Seq<char>) -> Seq<Seq<char>> {
    if s.len() > 0 && s[0] == '/' {
        seq!["/"@] + named_segments(s)
    } else if s == "."@ || (s.len() > 1 && s[0] == '.' && s[1] == '/') {
        seq!["."@] + named_segments(s)
    } else {
        named_segments(s)
    }
}

/// Two paths are equal as `std::path::Path` values.
pub open spec fn same_path(a: Seq<char>, b: Seq<char>) -> bool {
    path_components(a) == path_components(b)
}

/// Whether `g` names a component.
fn is_named(g: &str) -> (r: bool)
    ensures
        r == names_component(g@),
{
    let n = g.unicode_len();
    if n == 0 {
        return false;
    }
    let dot = same_text(g, ".");
    !dot
}

/// The components of the path `s`.
pub fn components_of(s: &str) -> (r: Vec<String>)
    ensures
        string_views(r@) == path_components(s@),
{
    let v = chars_of(s);
    let n = v.len();
    let mut out: Vec<String> = Vec::new();
    let rooted = n > 0 && v[0] == '/';
    let dotted = (n == 1 && v[0] == '.') || (n > 1 && v[0] == '.' && v[1] == '/');
    proof {
        reveal_strlit(".");
        if n == 1 && v[0] == '.' {
            assert(s@ =~= "."@);
        }
    }
    if rooted {
        out.push(owned("/"));
    } else if dotted {
        out.push(owned("."));
    }
    let ghost head = string_views(out@);
    let mut start: usize = 0;
    let mut i: usize = 0;
    while i < n
        invariant
            v@ == s@,
            n == s@.len(),
            start <= i <= n,
            string_views(out@) == head + slash_scan(s@.take(i as int)).0,
            slash_scan(s@.take(i as int)).1 == s@.subrange(start as int, i as int),
        decreases n - i,
    {
        let ghost prev = s@.take(i as int);
        assert(s@.take(i + 1).drop_last() =~= prev);
        if v[i] == '/' {
            let seg = s.substring_char(start, i);
            if is_named(seg) {
                out.push(owned(seg));
                assert(head + slash_scan(prev).0.push(seg@) =~= (head + slash_scan(prev).0).push(
                    seg@,
                ));
            }
            start = i + 1;
        } else {
            assert(s@.subrange(start as int, i as int).push(s@[i as int]) =~= s@.subrange(
                start as int,
                i + 1,
            ));
        }
        i += 1;
    }
    assert(s@.take(n as int) =~= s@);
    let last = s.substring_char(start, n);
    if is_named(last) {
        out.push(owned(last));
        assert(head + slash_scan(s@).0.push(last@) =~= (head + slash_scan(s@).0).push(last@));
    }
    proof {
        if rooted {
            assert(head =~= seq!["/"@]);
        } else if dotted {
            assert(head =~= seq!["."@]);
        }
    }
    out
}

/// Whether two lists of strings hold the same texts.
fn same_texts(a: &Vec<String>, b: &Vec<String>) -> (r: bool)
    ensures
        r == (string_views(a@) == string_views(b@)),
{
    if a.len() != b.len() {
        assert(string_views(a@).len() != string_views(b@).len());
        return false;
    }
    for i in 0..a.len()
        invariant
            a@.len() == b@.len(),
            forall|k: int| 0 <= k < i ==> (#[trigger] a@[k])@ == b@[k]@,
    {
        if !same_text(a[i].as_str(), b[i].as_str()) {
            assert(string_views(a@)[i as int] != string_views(b@)[i as int]);
            return false;
        }
    }
    assert(string_views(a@) =~= string_views(b@));
    true
}

/// Whether `a` and `b` name the same path.
pub fn paths_equal(a: &str, b: &str) -> (r: bool)
    ensures
        r == same_path(a@, b@),
{
    let ca = components_of(a);
    let cb = components_of(b);
    same_texts(&ca, &cb)
}

// ---------------------------------------------------------------------------
// The registry
// ---------------------------------------------------------------------------

/// Every path names something: none is empty.
pub open spec fn all_named(paths: Seq<Seq<char>>) -> bool {
    forall|i: int| 0 <= i < paths.len() ==> (#[trigger] paths[i]).len() > 0
}

/// The sandboxes that are still active, in the order they were created.
/// No active sandbox has the empty path.
#[derive(Debug)]
pub struct SandboxRegistry {
    active: Vec<String>,
}

impl View for SandboxRegistry {
    type V = Seq<Seq<char>>;

    closed spec fn view(&self) -> Seq<Seq<char>> {
        string_views(self.active@)
    }
}

impl SandboxRegistry {
    /// The registry never holds the empty path.
    #[verifier::type_invariant]
    spec fn holds_named_paths(self) -> bool {
        all_named(string_views(self.active@))
    }
}

/// Some active sandbox is the path `p`.
pub open spec fn is_registered(active: Seq<Seq<char>>, p: Seq<char>) -> bool {
    exists|i: int| 0 <= i < active.len() && same_path(#[trigger] active[i], p)
}

/// The active sandboxes other than the path `p`, in order.
pub open spec fn without_path(active: Seq<Seq<char>>, p: Seq<char>) -> Seq<Seq<char>>
    decreases active.len(),
{
    if active.len() == 0 {
        seq![]
    } else {
        let prev = without_path(active.drop_last(), p);
        if same_path(active.last(), p) {
            prev
        } else {
            prev.push(active.last())
        }
    }
}

impl SandboxRegistry {
    /// A registry with no active sandbox.
    pub fn new() -> (r: SandboxRegistry)
        ensures
            r@ == Seq::<Seq<char>>::empty(),
    {
        let r = SandboxRegistry { active: Vec::new() };
        assert(r@ =~= Seq::<Seq<char>>::empty());
        r
    }

    /// The active sandboxes, oldest first; none is the empty path.
    pub fn paths(&self) -> (r: &Vec<String>)
        ensures
            string_views(r@) == self@,
            all_named(self@),
    {
        proof {
            use_type_invariant(self);
        }
        &self.active
    }

    /// Records a sandbox that a dry run created; the empty path names no
    /// sandbox and is never recorded.
    pub fn register(&mut self, path: String)
        requires
            path@.len() > 0,
        ensures
            final(self)@ == old(self)@.push(path@),
            all_named(final(self)@),
    {
        proof {
            use_type_invariant(&*self);
        }
        let ghost before = self@;
        let mut paths: Vec<String> = Vec::new();
        std::mem::swap(&mut paths, &mut self.active);
        paths.push(path);
        assert(string_views(paths@) =~= before.push(path@));
        self.active = paths;
    }

    /// Whether `path` is an active sandbox.
    pub fn is_active(&self, path: &str) -> (r: bool)
        ensures
            r == is_registered(self@, path@),
    {
        let ghost av = self@;
        for i in 0..self.active.len()
            invariant
                av == self@,
                forall|k: int| 0 <= k < i ==> !same_path(#[trigger] av[k], path@),
        {
            if paths_equal(self.active[i].as_str(), path) {
                assert(same_path(av[i as int], path@));
                return true;
            }
        }
        false
    }

    /// Forgets every active sandbox that is the path `path`.
    pub fn release(&mut self, path: &str)
        ensures
            final(self)@ == without_path(old(self)@, path@),
            all_named(final(self)@),
    {
        proof {
            use_type_invariant(&*self);
        }
        let ghost av = self@;
        let mut kept: Vec<String> = Vec::new();
        for i in 0..self.active.len()
            invariant
                av == self@,
                all_named(av),
                string_views(kept@) == without_path(av.take(i as int), path@),
                all_named(string_views(kept@)),
        {
            assert(av.take(i + 1).drop_last() =~= av.take(i as int));
            assert(av[i as int] == self.active@[i as int]@);
            if !paths_equal(self.active[i].as_str(), path) {
                let ghost before = kept@;
                kept.push(self.active[i].clone());
                assert(string_views(kept@) =~= string_views(before).push(av[i as int]));
            }
        }
        assert(av.take(av.len() as int) =~= av);
        self.active = kept;
    }
}

// ---------------------------------------------------------------------------
// Commit and cleanup requests
// ---------------------------------------------------------------------------

/// The error message for a path that is not an active sandbox.
pub const INACTIVE_SANDBOX_MESSAGE: &'static str = "Invalid or inactive sandbox path provided.";

/// The error code for a path that is not an active sandbox.
pub const INVALID_PARAMS: i32 = -32602;

/// The output of a commit response.
pub const COMMIT_DONE: &'static str = "Sandbox committed successfully.";

/// The output of a cleanup response.
pub const CLEANUP_DONE: &'static str = "Sandbox cleaned up successfully.";

/// What to do with a commit or cleanup request.
#[derive(Debug)]
pub enum SandboxStep {
    /// Answer at once: the path is not an active sandbox.
    Reject(Response),
    /// Copy the sandbox's upper layer onto `/`, remove the sandbox, then
    /// report with [`finish_commit`].
    Commit(String),
    /// Remove the sandbox, then report with [`finish_cleanup`].
    Cleanup(String),
}

/// The mathematical value of a [`SandboxStep`].
pub enum SandboxStepView {
    Reject(ResponseView),
    Commit(Seq<char>),
    Cleanup(Seq<char>),
}

impl View for SandboxStep {
    type V = SandboxStepView;

    open spec fn view(&self) -> SandboxStepView {
        match self {
            SandboxStep::Reject(r) => SandboxStepView::Reject(r@),
            SandboxStep::Commit(p) => SandboxStepView::Commit(p@),
            SandboxStep::Cleanup(p) => SandboxStepView::Cleanup(p@),
        }
    }
}

/// The step for a commit or cleanup request, given the active sandboxes.
pub open spec fn sandbox_step(active: Seq<Seq<char>>, req: RequestView) -> SandboxStepView {
    if !is_registered(active, req.params.sandbox_path) {
        SandboxStepView::Reject(error_view(req.id, INVALID_PARAMS, INACTIVE_SANDBOX_MESSAGE@))
    } else if req.method == Method::CommitSandbox {
        SandboxStepView::Commit(req.params.sandbox_path)
    } else {
        SandboxStepView::Cleanup(req.params.sandbox_path)
    }
}

/// Decides how to handle a commit or cleanup request.
pub fn begin_sandbox_request(registry: &SandboxRegistry, request: &Request) -> (r: SandboxStep)
    requires
        request.method == Method::CommitSandbox || request.method == Method::CleanupSandbox,
    ensures
        r@ == sandbox_step(registry@, request@),
        r matches SandboxStep::Reject(resp) ==> is_reply_to(resp@, request.id),
{
    let path = request.params.sandbox_path.as_str();
    if !registry.is_active(path) {
        return SandboxStep::Reject(
            Response::failure(request.id, INVALID_PARAMS, owned(INACTIVE_SANDBOX_MESSAGE)),
        );
    }
    if request.method == Method::CommitSandbox {
        SandboxStep::Commit(owned(path))
    } else {
        SandboxStep::Cleanup(owned(path))
    }
}

/// The arguments of the `cp` that commits a sandbox: `-aT <path>/upper/ /`,
/// or for the fallback copy
/// `-RT --no-preserve=ownership,timestamps <path>/upper/ /`.
pub fn commit_copy_args(path: &str, fallback: bool) -> (r: Vec<String>)
    ensures
        string_views(r@) == copy_args(path@, fallback),
{
    let mut r: Vec<String> = Vec::new();
    if fallback {
        r.push(owned("-RT"));
        r.push(owned("--no-preserve=ownership,timestamps"));
    } else {
        r.push(owned("-aT"));
    }
    r.push(joined(path, "/upper/"));
    r.push(owned("/"));
    proof {
        if fallback {
            assert(string_views(r@) =~= seq![
                "-RT"@,
                "--no-preserve=ownership,timestamps"@,
                path@ + "/upper/"@,
                "/"@,
            ]);
        }
    }
    r
}

/// The next step of committing a sandbox.
#[derive(Debug)]
pub enum CopyStep {
    /// Run `cp` with these arguments; `fallback` says whether this is the
    /// second, fallback copy.
    Copy { args: Vec<String>, fallback: bool },
    /// The commit is over; the flag says whether the last copy succeeded.
    Done(bool),
}

/// The mathematical value of a [`CopyStep`].
pub enum CopyStepView {
    Copy(Seq<Seq<char>>, bool),
    Done(bool),
}

impl View for CopyStep {
    type V = CopyStepView;

    open spec fn view(&self) -> CopyStepView {
        match self {
            CopyStep::Copy { args, fallback } => CopyStepView::Copy(string_views(args@), *fallback),
            CopyStep::Done(ok) => CopyStepView::Done(*ok),
        }
    }
}

/// The arguments of the copy that commits `path` (see [`commit_copy_args`]).
pub open spec fn copy_args(path: Seq<char>, fallback: bool) -> Seq<Seq<char>> {
    if fallback {
        seq!["-RT"@, "--no-preserve=ownership,timestamps"@, path + "/upper/"@, "/"@]
    } else {
        seq!["-aT"@, path + "/upper/"@, "/"@]
    }
}

/// The step after a copy of `path` (the fallback one or not) that did or did
/// not succeed: a failed first copy is retried once with the fallback
/// arguments; otherwise the commit ends with the outcome of that copy.
pub open spec fn copy_step_after(path: Seq<char>, was_fallback: bool, succeeded: bool) -> CopyStepView {
    if succeeded {
        CopyStepView::Done(true)
    } else if !was_fallback {
        CopyStepView::Copy(copy_args(path, true), true)
    } else {
        CopyStepView::Done(false)
    }
}

/// The first step of committing `path`: the ordinary copy.
pub fn first_copy(path: &str) -> (r: CopyStep)
    ensures
        r@ == CopyStepView::Copy(copy_args(path@, false), false),
{
    CopyStep::Copy { args: commit_copy_args(path, false), fallback: false }
}

/// The step after a copy of `path` that did or did not succeed.
pub fn after_copy(path: &str, was_fallback: bool, succeeded: bool) -> (r: CopyStep)
    ensures
        r@ == copy_step_after(path@, was_fallback, succeeded),
{
    if succeeded {
        CopyStep::Done(true)
    } else if !was_fallback {
        CopyStep::Copy { args: commit_copy_args(path, true), fallback: true }
    } else {
        CopyStep::Done(false)
    }
}

/// The reply to a commit whose copy did or did not succeed.
pub open spec fn commit_reply(id: u64, copied: bool) -> ResponseView {
    success_view(
        id,
        plain_result(
            if copied {
                "success"@
            } else {
                "failure"@
            },
            COMMIT_DONE@,
            seq![],
            seq![],
        ),
    )
}

/// The reply to a cleanup.
pub open spec fn cleanup_reply(id: u64) -> ResponseView {
    success_view(id, plain_result("success"@, CLEANUP_DONE@, seq![], seq![]))
}

/// Reports a commit of `path`, which the copy did or did not complete, and
/// forgets the sandbox.
pub fn finish_commit(registry: &mut SandboxRegistry, id: u64, path: &str, copied: bool) -> (r:
    Response)
    ensures
        final(registry)@ == without_path(old(registry)@, path@),
        r@ == commit_reply(id, copied),
        is_reply_to(r@, id),
{
    registry.release(path);
    let status = if copied {
        "success"
    } else {
        "failure"
    };
    Response::success(id, crate::protocol::ResponseResult::with_status(status, COMMIT_DONE))
}

/// Reports the cleanup of `path` and forgets the sandbox.
pub fn finish_cleanup(registry: &mut SandboxRegistry, id: u64, path: &str) -> (r: Response)
    ensures
        final(registry)@ == without_path(old(registry)@, path@),
        r@ == cleanup_reply(id),
        is_reply_to(r@, id),
{
    registry.release(path);
    Response::success(id, crate::protocol::ResponseResult::with_status("success", CLEANUP_DONE))
}

// ---------------------------------------------------------------------------
// Laws of the registry
// ---------------------------------------------------------------------------

/// A released path is no longer active, and every other sandbox still is.
pub proof fn law_release_forgets_only_that_path(active: Seq<Seq<char>>, p: Seq<char>, q: Seq<char>)
    ensures
        !is_registered(without_path(active, p), p),
        !same_path(q, p) ==> (is_registered(without_path(active, p), q) <==> is_registered(
            active,
            q,
        )),
    decreases active.len(),
{
    if active.len() > 0 {
        let init = active.drop_last();
        law_release_forgets_only_that_path(init, p, q);
        let w = without_path(active, p);
        let wi = without_path(init, p);
        assert(forall|i: int| 0 <= i < w.len() ==> !same_path(#[trigger] w[i], p));
        if !same_path(q, p) {
            if is_registered(active, q) {
                let i = choose|i: int| 0 <= i < active.len() && same_path(#[trigger] active[i], q);
                if i < init.len() {
                    assert(init[i] == active[i]);
                    let j = choose|j: int| 0 <= j < wi.len() && same_path(#[trigger] wi[j], q);
                    assert(w[j] == wi[j]);
                } else {
                    assert(w[w.len() - 1] == active.last());
                }
            }
            if is_registered(w, q) {
                let j = choose|j: int| 0 <= j < w.len() && same_path(#[trigger] w[j], q);
                if j < wi.len() {
                    assert(is_registered(init, q));
                }
            }
        }
    }
}

/// Committing a sandbox copies at most twice: the fallback copy runs only
/// after the first copy failed, nothing runs after it, and the commit
/// succeeds exactly when the last copy did.
pub proof fn law_commit_copies_at_most_twice(path: Seq<char>, first_ok: bool, fallback_ok: bool)
    ensures
        first_ok ==> copy_step_after(path, false, first_ok) == CopyStepView::Done(true),
        !first_ok ==> copy_step_after(path, false, first_ok) == CopyStepView::Copy(
            copy_args(path, true),
            true,
        ),
        copy_step_after(path, true, fallback_ok) == CopyStepView::Done(fallback_ok),
{
}

/// The reply to a commit reports `success` exactly when the copy of the
/// sandbox's upper layer succeeded, and `failure` otherwise; either way it is
/// a result, not an error, with the commit's message. A cleanup always
/// reports `success`.
pub proof fn law_commit_reports_whether_copied(id: u64, copied: bool)
    ensures
        commit_reply(id, copied).error is None,
        commit_reply(id, copied).result matches Some(res) && (res.status == "success"@ <==> copied)
            && (!copied ==> res.status == "failure"@) && res.output
            == "Sandbox committed successfully."@,
        cleanup_reply(id).result matches Some(res) && res.status == "success"@,
{
    reveal_strlit("success");
    reveal_strlit("failure");
    assert("success"@[0] != "failure"@[0]);
}

/// Whatever path the copies take, the commit's reply reports `success`
/// exactly when one of them succeeded: the first copy, or the fallback copy
/// that runs only after the first failed.
pub proof fn law_commit_succeeds_iff_a_copy_succeeded(
    id: u64,
    path: Seq<char>,
    first_ok: bool,
    fallback_ok: bool,
)
    ensures
        ({
            let copied = match copy_step_after(path, false, first_ok) {
                CopyStepView::Done(ok) => ok,
                CopyStepView::Copy(_, fallback) => match copy_step_after(path, fallback, fallback_ok) {
                    CopyStepView::Done(ok) => ok,
                    CopyStepView::Copy(_, _) => false,
                },
            };
            commit_reply(id, copied).result matches Some(res) && (res.status == "success"@ <==> (
            first_ok || fallback_ok))
        }),
{
    law_commit_reports_whether_copied(id, first_ok || fallback_ok);
}

/// The registry never holds the empty path: registering a non-empty path
/// and releasing any path both keep every active path non-empty.
pub proof fn law_registry_never_holds_empty_path(active: Seq<Seq<char>>, p: Seq<char>, q: Seq<char>)
    requires
        all_named(active),
    ensures
        q.len() > 0 ==> all_named(active.push(q)),
        all_named(without_path(active, p)),
    decreases active.len(),
{
    if active.len() > 0 {
        law_registry_never_holds_empty_path(active.drop_last(), p, q);
    }
    if q.len() > 0 {
        assert forall|i: int| 0 <= i < active.push(q).len() implies (#[trigger] active.push(q)[i]).len()
            > 0 by {
            if i < active.len() {
                assert(active.push(q)[i] == active[i]);
            }
        }
    }
}

/// A registered sandbox is active until it is released.
pub proof fn law_registered_is_active(active: Seq<Seq<char>>, p: Seq<char>)
    ensures
        is_registered(active.push(p), p),
{
    assert(same_path(active.push(p)[active.len() as int], p));
}

/// A commit or cleanup request for a path that is not an active sandbox is
/// answered with an invalid-params error and touches nothing else.
pub proof fn law_inactive_sandbox_rejected(active: Seq<Seq<char>>, req: RequestView)
    requires
        !is_registered(active, req.params.sandbox_path),
    ensures
        sandbox_step(active, req) == SandboxStepView::Reject(
            error_view(req.id, INVALID_PARAMS, INACTIVE_SANDBOX_MESSAGE@),
        ),
{
}

/// A trailing separator does not change which sandbox a path names.
pub proof fn law_trailing_separator_is_ignored(p: Seq<char>)
    requires
        p.len() > 0,
        p.last() != '/',
    ensures
        same_path(p, p.push('/')),
{
    let q = p.push('/');
    assert(q.drop_last() =~= p);
    reveal_strlit(".");
    if p.len() == 1 && p[0] == '.' {
        assert(p =~= "."@);
    }
    if p == "."@ {
        let e = p.drop_last();
        assert(slash_scan(e).1 =~= Seq::<char>::empty());
        assert(slash_scan(p).1 =~= "."@);
    }
}

} // verus!
