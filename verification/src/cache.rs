//! The cache of model answers, keyed by query (compared ignoring ASCII case)
//! and method. Answers are stored as the model gave them, before the policy
//! engine; the policy is applied again each time an answer is served.
use vstd::prelude::*;
use crate::protocol::{action_views, clone_actions, clone_strings, ActionView, IntentAction, Method};
use crate::text::{eq_ignore_ascii_case_text, eq_ignoring_ascii_case, string_views};

verus! {

/// What the model answered to a query.
#[derive(Debug)]
pub struct LlmResponse {
    pub status: String,
    pub output: String,
    pub steps: Vec<String>,
    pub actions: Vec<IntentAction>,
}

/// The mathematical value of an [`LlmResponse`].
pub struct LlmView {
    pub status: Seq<char>,
    pub output: Seq<char>,
    pub steps: Seq<Seq<char>>,
    pub actions: Seq<ActionView>,
}

impl View for LlmResponse {
    type V = LlmView;

    open spec fn view(&self) -> LlmView {
        LlmView {
            status: self.status@,
            output: self.output@,
            steps: string_views(self.steps@),
            actions: action_views(self.actions@),
        }
    }
}

impl Clone for LlmResponse {
    fn clone(&self) -> (r: Self)
        ensures
            r@ == self@,
    {
        LlmResponse {
            status: self.status.clone(),
            output: self.output.clone(),
            steps: clone_strings(&self.steps),
            actions: clone_actions(&self.actions),
        }
    }
}

/// One cached answer.
#[derive(Debug)]
pub struct CacheEntry {
    pub query: String,
    pub method: Method,
    pub response: LlmResponse,
}

/// The mathematical value of a [`CacheEntry`].
pub struct EntryView {
    pub query: Seq<char>,
    pub method: Method,
    pub response: LlmView,
}

impl View for CacheEntry {
    type V = EntryView;

    open spec fn view(&self) -> EntryView {
        EntryView { query: self.query@, method: self.method, response: self.response@ }
    }
}

/// The cached answers, oldest first.
#[derive(Debug)]
pub struct QueryCache {
    pub entries: Vec<CacheEntry>,
}

impl View for QueryCache {
    type V = Seq<EntryView>;

    open spec fn view(&self) -> Seq<EntryView> {
        self.entries@.map_values(|e: CacheEntry| e@)
    }
}

/// The entry answers `query` for `method`.
pub open spec fn entry_matches(e: EntryView, query: Seq<char>, method: Method) -> bool {
    eq_ignoring_ascii_case(e.query, query) && e.method == method
}

/// The position of the oldest entry that answers `query` for `method`.
pub open spec fn first_match(entries: Seq<EntryView>, query: Seq<char>, method: Method) -> Option<
    int,
>
    decreases entries.len(),
{
    if entries.len() == 0 {
        None
    } else {
        match first_match(entries.drop_last(), query, method) {
            Some(i) => Some(i),
            None => if entry_matches(entries.last(), query, method) {
                Some(entries.len() - 1)
            } else {
                None
            },
        }
    }
}

/// A match among the first `k` entries is the first match of all of them.
proof fn lemma_first_match_extends(entries: Seq<EntryView>, query: Seq<char>, method: Method, k: int)
    requires
        0 <= k <= entries.len(),
        first_match(entries.take(k), query, method) is Some,
    ensures
        first_match(entries, query, method) == first_match(entries.take(k), query, method),
    decreases entries.len() - k,
{
    if k < entries.len() {
        assert(entries.take(k + 1).drop_last() =~= entries.take(k));
        lemma_first_match_extends(entries, query, method, k + 1);
    } else {
        assert(entries.take(k) =~= entries);
    }
}

impl QueryCache {
    /// An empty cache.
    pub fn new() -> (r: QueryCache)
        ensures
            r@ == Seq::<EntryView>::empty(),
    {
        QueryCache { entries: Vec::new() }
    }

    /// The position of the oldest entry that answers `query` for `method`.
    pub fn lookup(&self, query: &str, method: Method) -> (r: Option<usize>)
        ensures
            r matches Some(i) ==> first_match(self@, query@, method) == Some(i as int),
            r is None ==> first_match(self@, query@, method) is None,
            r matches Some(i) ==> i < self@.len() && entry_matches(self@[i as int], query@, method),
    {
        let ghost ev = self@;
        for i in 0..self.entries.len()
            invariant
                ev == self@,
                first_match(ev.take(i as int), query@, method) is None,
        {
            assert(ev.take(i + 1).drop_last() =~= ev.take(i as int));
            if eq_ignore_ascii_case_text(self.entries[i].query.as_str(), query)
                && self.entries[i].method == method {
                proof {
                    lemma_first_match_extends(ev, query@, method, i + 1);
                }
                return Some(i);
            }
        }
        assert(ev.take(ev.len() as int) =~= ev);
        None
    }

    /// Appends an answer; older entries keep precedence.
    pub fn insert(&mut self, entry: CacheEntry)
        ensures
            final(self)@ == old(self)@.push(entry@),
    {
        let ghost before = self.entries@;
        self.entries.push(entry);
        assert(self.entries@.map_values(|e: CacheEntry| e@) =~= before.map_values(
            |e: CacheEntry| e@,
        ).push(entry@));
    }
}

// ---------------------------------------------------------------------------
// Laws of the cache
// ---------------------------------------------------------------------------

/// Queries are compared ignoring ASCII case: two queries equal up to ASCII
/// case find the same entry.
pub proof fn law_lookup_ignores_ascii_case(
    entries: Seq<EntryView>,
    q1: Seq<char>,
    q2: Seq<char>,
    method: Method,
)
    requires
        eq_ignoring_ascii_case(q1, q2),
    ensures
        first_match(entries, q1, method) == first_match(entries, q2, method),
    decreases entries.len(),
{
    if entries.len() > 0 {
        law_lookup_ignores_ascii_case(entries.drop_last(), q1, q2, method);
        let e = entries.last().query;
        if eq_ignoring_ascii_case(e, q1) {
            assert(forall|k: int| 0 <= k < e.len() ==> crate::text::ascii_fold(e[k])
                == crate::text::ascii_fold(#[trigger] q2[k]));
        }
        if eq_ignoring_ascii_case(e, q2) {
            assert(forall|k: int| 0 <= k < e.len() ==> crate::text::ascii_fold(e[k])
                == crate::text::ascii_fold(#[trigger] q1[k]));
        }
    }
}

/// After an answer is stored, a query for the same method that equals it up
/// to ASCII case is answered from the cache: by that answer, unless an older
/// entry already answered it.
pub proof fn law_stored_answer_is_found(
    entries: Seq<EntryView>,
    entry: EntryView,
    query: Seq<char>,
)
    requires
        eq_ignoring_ascii_case(entry.query, query),
    ensures
        first_match(entries.push(entry), query, entry.method) is Some,
        first_match(entries, query, entry.method) is None ==> first_match(
            entries.push(entry),
            query,
            entry.method,
        ) == Some(entries.len() as int),
        first_match(entries, query, entry.method) matches Some(i) ==> first_match(
            entries.push(entry),
            query,
            entry.method,
        ) == Some(i),
{
    assert(entries.push(entry).drop_last() =~= entries);
}

} // verus!
