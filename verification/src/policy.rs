//! The security policy engine: the rules an administrator configures, and the
//! reclassification that every proposed action goes through before the
//! client sees it.
use vstd::prelude::*;
use crate::protocol::{
    action_views, risk_name, ActionCategory, ActionView, IntentAction, RiskLevel,
};
use crate::text::{
    joined, contains_text, has_substring, lowercase, same_text, string_views, trim_text, trimmed,
    unicode_lowercase,
};

verus! {

/// Prepended to the explanation of an action that a blocked pattern matches.
pub const BLOCKED_NOTE: &'static str = "[BLOCKED BY POLICY ENGINE] This command matches an explicitly blocked pattern in the security policy! Original: ";

/// Prepended to the explanation of a pre-approved action.
pub const ALLOWED_NOTE: &'static str = "[ALLOWED BY POLICY ENGINE] Pre-approved command. Original: ";

/// Starts the explanation of an action that an override rule reclassifies;
/// the new risk level's name follows.
pub const OVERRIDE_NOTE: &'static str = "[OS POLICY OVERRIDE] Risk re-classified to ";

/// Separates the override note from the previous explanation.
pub const ORIGINAL_SEPARATOR: &'static str = ". Original: ";

/// A rule that reclassifies every action whose command contains `pattern`.
#[derive(Debug)]
pub struct RiskOverrideRule {
    pub pattern: String,
    pub risk_level: RiskLevel,
    pub category: Option<ActionCategory>,
}

/// The mathematical value of a [`RiskOverrideRule`].
pub struct RuleView {
    pub pattern: Seq<char>,
    pub risk_level: RiskLevel,
    pub category: Option<ActionCategory>,
}

impl View for RiskOverrideRule {
    type V = RuleView;

    open spec fn view(&self) -> RuleView {
        RuleView { pattern: self.pattern@, risk_level: self.risk_level, category: self.category }
    }
}

/// The security policy.
#[derive(Debug)]
pub struct Policy {
    pub blocked_commands: Vec<String>,
    pub allowed_commands: Vec<String>,
    pub risk_overrides: Vec<RiskOverrideRule>,
    pub max_direct_execution_risk: RiskLevel,
}

/// The mathematical value of a [`Policy`].
pub struct PolicyView {
    pub blocked_commands: Seq<Seq<char>>,
    pub allowed_commands: Seq<Seq<char>>,
    pub risk_overrides: Seq<RuleView>,
    pub max_direct_execution_risk: RiskLevel,
}

impl View for Policy {
    type V = PolicyView;

    open spec fn view(&self) -> PolicyView {
        PolicyView {
            blocked_commands: string_views(self.blocked_commands@),
            allowed_commands: string_views(self.allowed_commands@),
            risk_overrides: self.risk_overrides@.map_values(|r: RiskOverrideRule| r@),
            max_direct_execution_risk: self.max_direct_execution_risk,
        }
    }
}

/// The policy patterns after lowercasing, the form in which commands are
/// matched against them.
pub struct LoweredPatterns {
    pub blocked: Vec<String>,
    pub allowed: Vec<String>,
    pub overrides: Vec<String>,
}

// ---------------------------------------------------------------------------
// Specification of the classification
// ---------------------------------------------------------------------------

/// Some blocked pattern occurs in the command.
pub open spec fn matches_blocked(blocked: Seq<Seq<char>>, cmd: Seq<char>) -> bool {
    exists|i: int| 0 <= i < blocked.len() && has_substring(cmd, #[trigger] blocked[i])
}

/// The command equals some allowed command.
pub open spec fn matches_allowed(allowed: Seq<Seq<char>>, cmd: Seq<char>) -> bool {
    exists|i: int| 0 <= i < allowed.len() && cmd == #[trigger] allowed[i]
}

/// The explanation an override to `level` gives an action explained by `prev`.
pub open spec fn override_explanation(level: RiskLevel, prev: Seq<char>) -> Seq<char> {
    OVERRIDE_NOTE@ + risk_name(level) + ORIGINAL_SEPARATOR@ + prev
}

/// The action after one override rule fired on it.
pub open spec fn override_step(rule: RuleView, a: ActionView) -> ActionView {
    ActionView {
        category: match rule.category {
            Some(c) => c,
            None => a.category,
        },
        command: a.command,
        risk_level: rule.risk_level,
        explanation: override_explanation(rule.risk_level, a.explanation),
    }
}

/// The action after the first `n` override rules, in order, each firing when
/// its lowered pattern occurs in the command.
pub open spec fn apply_overrides(
    rules: Seq<RuleView>,
    patterns: Seq<Seq<char>>,
    cmd: Seq<char>,
    a: ActionView,
    n: int,
) -> ActionView
    decreases n,
{
    if n <= 0 {
        a
    } else {
        let prev = apply_overrides(rules, patterns, cmd, a, n - 1);
        if has_substring(cmd, patterns[n - 1]) {
            override_step(rules[n - 1], prev)
        } else {
            prev
        }
    }
}

/// The category that a command with no known category gets from its words.
pub open spec fn fallback_category(cmd: Seq<char>, a: ActionView) -> ActionView {
    if a.category != ActionCategory::Unknown {
        a
    } else if has_substring(cmd, "apt "@) || has_substring(cmd, "apt-get "@) || has_substring(
        cmd,
        "dpkg "@,
    ) {
        ActionView { category: ActionCategory::PackageManagement, ..a }
    } else if has_substring(cmd, "systemctl "@) || has_substring(cmd, "service "@) {
        ActionView { category: ActionCategory::ServiceControl, ..a }
    } else if has_substring(cmd, "ip "@) || has_substring(cmd, "ifconfig "@) || has_substring(
        cmd,
        "ufw "@,
    ) || has_substring(cmd, "iptables "@) {
        ActionView { category: ActionCategory::NetworkConfiguration, ..a }
    } else {
        a
    }
}

/// The action after the policy engine, given the lowered patterns and the
/// normalized command.
pub open spec fn classify(
    blocked: Seq<Seq<char>>,
    allowed: Seq<Seq<char>>,
    rules: Seq<RuleView>,
    override_patterns: Seq<Seq<char>>,
    cmd: Seq<char>,
    a: ActionView,
) -> ActionView {
    if matches_blocked(blocked, cmd) {
        ActionView {
            risk_level: RiskLevel::Critical,
            explanation: BLOCKED_NOTE@ + a.explanation,
            ..a
        }
    } else if matches_allowed(allowed, cmd) {
        ActionView { risk_level: RiskLevel::Low, explanation: ALLOWED_NOTE@ + a.explanation, ..a }
    } else {
        fallback_category(cmd, apply_overrides(rules, override_patterns, cmd, a, rules.len() as int))
    }
}

/// The lowercase forms of a list of patterns.
pub open spec fn lowered_all(v: Seq<Seq<char>>) -> Seq<Seq<char>> {
    v.map_values(|s: Seq<char>| unicode_lowercase(s))
}

/// The lowercase forms of the override rules' patterns.
pub open spec fn lowered_rule_patterns(rules: Seq<RuleView>) -> Seq<Seq<char>> {
    rules.map_values(|r: RuleView| unicode_lowercase(r.pattern))
}

/// The form in which a command is matched: trimmed, then lowercased.
pub open spec fn normalized_command(command: Seq<char>) -> Seq<char> {
    unicode_lowercase(trimmed(command))
}

/// The action after the policy engine under policy `p`.
pub open spec fn sanitized(p: PolicyView, a: ActionView) -> ActionView {
    classify(
        lowered_all(p.blocked_commands),
        lowered_all(p.allowed_commands),
        p.risk_overrides,
        lowered_rule_patterns(p.risk_overrides),
        normalized_command(a.command),
        a,
    )
}

// ---------------------------------------------------------------------------
// Policy construction
// ---------------------------------------------------------------------------

/// The risk limit a policy file gets when it names none.
pub fn default_max_direct_execution_risk() -> (r: RiskLevel)
    ensures
        r == RiskLevel::Medium,
{
    RiskLevel::Medium
}

impl Default for Policy {
    /// The built-in policy: block `rm -rf /`, `dd if=` and `mkfs.`, allow
    /// nothing explicitly, override nothing, and run at most medium risk on
    /// the host.
    fn default() -> (r: Policy)
        ensures
            r@.blocked_commands == seq!["rm -rf /"@, "dd if="@, "mkfs."@],
            r@.allowed_commands == Seq::<Seq<char>>::empty(),
            r@.risk_overrides == Seq::<RuleView>::empty(),
            r@.max_direct_execution_risk == RiskLevel::Medium,
    {
        let mut blocked: Vec<String> = Vec::new();
        blocked.push("rm -rf /".to_owned());
        blocked.push("dd if=".to_owned());
        blocked.push("mkfs.".to_owned());
        Policy {
            blocked_commands: blocked,
            allowed_commands: Vec::new(),
            risk_overrides: Vec::new(),
            max_direct_execution_risk: default_max_direct_execution_risk(),
        }
    }
}

/// The first candidate that is present, if any.
pub open spec fn first_present(candidates: Seq<Option<Policy>>) -> Option<Policy>
    decreases candidates.len(),
{
    if candidates.len() == 0 {
        None
    } else if candidates[0] is Some {
        candidates[0]
    } else {
        first_present(candidates.drop_first())
    }
}

/// The policy the daemon runs with: the first candidate that could be loaded,
/// in the order they were tried, or the built-in policy if none could.
pub fn first_loaded_policy(candidates: Vec<Option<Policy>>) -> (r: Policy)
    ensures
        first_present(candidates@) matches Some(p) ==> r == p,
        first_present(candidates@) is None ==> r@ == Policy::default_view(),
{
    let mut rest = candidates;
    while rest.len() > 0
        invariant
            first_present(candidates@) == first_present(rest@),
        decreases rest@.len(),
    {
        let c = rest.remove(0);
        if c.is_some() {
            return c.unwrap();
        }
    }
    Policy::default()
}

impl Policy {
    /// The view of the built-in policy.
    pub open spec fn default_view() -> PolicyView {
        PolicyView {
            blocked_commands: seq!["rm -rf /"@, "dd if="@, "mkfs."@],
            allowed_commands: Seq::<Seq<char>>::empty(),
            risk_overrides: Seq::<RuleView>::empty(),
            max_direct_execution_risk: RiskLevel::Medium,
        }
    }

    /// The policy's patterns, lowercased.
    pub fn lowered_patterns(&self) -> (r: LoweredPatterns)
        ensures
            string_views(r.blocked@) == lowered_all(self@.blocked_commands),
            string_views(r.allowed@) == lowered_all(self@.allowed_commands),
            string_views(r.overrides@) == lowered_rule_patterns(self@.risk_overrides),
    {
        let blocked = lower_each(&self.blocked_commands);
        let allowed = lower_each(&self.allowed_commands);
        let mut overrides: Vec<String> = Vec::new();
        for i in 0..self.risk_overrides.len()
            invariant
                overrides@.len() == i,
                forall|k: int|
                    0 <= k < i ==> #[trigger] overrides@[k]@ == unicode_lowercase(
                        self.risk_overrides@[k].pattern@,
                    ),
        {
            overrides.push(lowercase(self.risk_overrides[i].pattern.as_str()));
        }
        LoweredPatterns { blocked, allowed, overrides }
    }
}

/// The lowercase form of each string.
fn lower_each(v: &Vec<String>) -> (r: Vec<String>)
    ensures
        string_views(r@) == lowered_all(string_views(v@)),
{
    let mut r: Vec<String> = Vec::new();
    for i in 0..v.len()
        invariant
            r@.len() == i,
            forall|k: int| 0 <= k < i ==> #[trigger] r@[k]@ == unicode_lowercase(v@[k]@),
    {
        r.push(lowercase(v[i].as_str()));
    }
    r
}

// ---------------------------------------------------------------------------
// Classification
// ---------------------------------------------------------------------------

/// Whether some pattern occurs in `cmd`.
fn any_occurs(cmd: &str, patterns: &Vec<String>) -> (r: bool)
    ensures
        r == matches_blocked(string_views(patterns@), cmd@),
{
    let ghost pv = string_views(patterns@);
    for i in 0..patterns.len()
        invariant
            pv == string_views(patterns@),
            forall|k: int| 0 <= k < i ==> !has_substring(cmd@, #[trigger] pv[k]),
    {
        if contains_text(cmd, patterns[i].as_str()) {
            assert(has_substring(cmd@, pv[i as int]));
            return true;
        }
    }
    false
}

/// Whether `cmd` equals some pattern.
fn any_equal(cmd: &str, patterns: &Vec<String>) -> (r: bool)
    ensures
        r == matches_allowed(string_views(patterns@), cmd@),
{
    let ghost pv = string_views(patterns@);
    for i in 0..patterns.len()
        invariant
            pv == string_views(patterns@),
            forall|k: int| 0 <= k < i ==> cmd@ != #[trigger] pv[k],
    {
        if same_text(cmd, patterns[i].as_str()) {
            assert(cmd@ == pv[i as int]);
            return true;
        }
    }
    false
}

/// Whether the command contains any of the given words.
fn mentions_any(cmd: &str, words: &[&str]) -> (r: bool)
    ensures
        r == exists|i: int| 0 <= i < words@.len() && has_substring(cmd@, #[trigger] words@[i]@),
{
    let mut i: usize = 0;
    while i < words.len()
        invariant
            i <= words@.len(),
            forall|k: int| 0 <= k < i ==> !has_substring(cmd@, #[trigger] words@[k]@),
        decreases words@.len() - i,
    {
        if contains_text(cmd, words[i]) {
            return true;
        }
        i += 1;
    }
    false
}

/// Reclassifies one action whose normalized command is `cmd`, given the
/// policy and its lowered patterns: a blocked pattern makes it critical; else
/// an allowed command makes it low risk; else every override rule whose
/// pattern occurs applies in order, and an unknown category is guessed from
/// the command's words.
pub fn apply_policy(
    policy: &Policy,
    lowered: &LoweredPatterns,
    cmd: &str,
    action: &mut IntentAction,
)
    requires
        lowered.overrides@.len() == policy.risk_overrides@.len(),
    ensures
        final(action)@ == classify(
            string_views(lowered.blocked@),
            string_views(lowered.allowed@),
            policy@.risk_overrides,
            string_views(lowered.overrides@),
            cmd@,
            old(action)@,
        ),
{
    if any_occurs(cmd, &lowered.blocked) {
        action.risk_level = RiskLevel::Critical;
        action.explanation = joined(BLOCKED_NOTE, action.explanation.as_str());
        return ;
    }
    if any_equal(cmd, &lowered.allowed) {
        action.risk_level = RiskLevel::Low;
        action.explanation = joined(ALLOWED_NOTE, action.explanation.as_str());
        return ;
    }
    let ghost start = action@;
    let ghost rules = policy@.risk_overrides;
    let ghost pats = string_views(lowered.overrides@);
    let n = policy.risk_overrides.len();
    for i in 0..n
        invariant
            n == policy.risk_overrides@.len(),
            n == lowered.overrides@.len(),
            rules == policy@.risk_overrides,
            pats == string_views(lowered.overrides@),
            action@ == apply_overrides(rules, pats, cmd@, start, i as int),
    {
        if contains_text(cmd, lowered.overrides[i].as_str()) {
            let rule = &policy.risk_overrides[i];
            action.risk_level = rule.risk_level;
            match rule.category {
                Some(c) => {
                    action.category = c;
                },
                None => {},
            }
            let head = joined(OVERRIDE_NOTE, rule.risk_level.debug_name());
            let head = joined(head.as_str(), ORIGINAL_SEPARATOR);
            action.explanation = joined(head.as_str(), action.explanation.as_str());
        }
    }
    if action.category == ActionCategory::Unknown {
        if mentions_any(cmd, &["apt ", "apt-get ", "dpkg "]) {
            action.category = ActionCategory::PackageManagement;
        } else if mentions_any(cmd, &["systemctl ", "service "]) {
            action.category = ActionCategory::ServiceControl;
        } else if mentions_any(cmd, &["ip ", "ifconfig ", "ufw ", "iptables "]) {
            action.category = ActionCategory::NetworkConfiguration;
        }
    }
}

/// The form in which a command is matched against the policy: trimmed, then
/// lowercased.
pub fn normalize_command(command: &str) -> (r: String)
    ensures
        r@ == normalized_command(command@),
{
    lowercase(trim_text(command))
}

/// Runs every action through the policy engine: each action becomes
/// [`sanitized`] under `policy`, in place and in order.
pub fn verify_and_sanitize_actions(policy: &Policy, actions: &mut Vec<IntentAction>)
    ensures
        action_views(final(actions)@) == action_views(old(actions)@).map_values(
            |a: ActionView| sanitized(policy@, a),
        ),
{
    let lowered = policy.lowered_patterns();
    let ghost before = action_views(actions@);
    let mut out: Vec<IntentAction> = Vec::new();
    let n = actions.len();
    for i in 0..n
        invariant
            n == actions@.len(),
            before == action_views(actions@),
            out@.len() == i,
            string_views(lowered.blocked@) == lowered_all(policy@.blocked_commands),
            string_views(lowered.allowed@) == lowered_all(policy@.allowed_commands),
            string_views(lowered.overrides@) == lowered_rule_patterns(policy@.risk_overrides),
            forall|k: int| 0 <= k < i ==> #[trigger] out@[k]@ == sanitized(policy@, before[k]),
    {
        let mut a = actions[i].clone();
        let cmd = normalize_command(a.command.as_str());
        assert(lowered.overrides@.len() == policy.risk_overrides@.len()) by {
            assert(string_views(lowered.overrides@).len() == lowered_rule_patterns(
                policy@.risk_overrides,
            ).len());
        }
        apply_policy(policy, &lowered, cmd.as_str(), &mut a);
        out.push(a);
    }
    *actions = out;
}

} // verus!

verus! {

// ---------------------------------------------------------------------------
// Laws of the policy engine
// ---------------------------------------------------------------------------

/// The policy engine never rewrites the command itself.
pub proof fn law_sanitize_keeps_command(p: PolicyView, a: ActionView)
    ensures
        sanitized(p, a).command == a.command,
{
    lemma_overrides_keep_command(
        p.risk_overrides,
        lowered_rule_patterns(p.risk_overrides),
        normalized_command(a.command),
        a,
        p.risk_overrides.len() as int,
    );
}

proof fn lemma_overrides_keep_command(
    rules: Seq<RuleView>,
    patterns: Seq<Seq<char>>,
    cmd: Seq<char>,
    a: ActionView,
    n: int,
)
    ensures
        apply_overrides(rules, patterns, cmd, a, n).command == a.command,
    decreases n,
{
    if n > 0 {
        lemma_overrides_keep_command(rules, patterns, cmd, a, n - 1);
    }
}

/// An action whose trimmed, lowercased command contains a lowercased blocked
/// pattern always comes out critical, whatever else the policy says.
pub proof fn law_blocked_commands_become_critical(p: PolicyView, a: ActionView, i: int)
    requires
        0 <= i < p.blocked_commands.len(),
        has_substring(
            normalized_command(a.command),
            unicode_lowercase(p.blocked_commands[i]),
        ),
    ensures
        sanitized(p, a).risk_level == RiskLevel::Critical,
        sanitized(p, a).explanation == BLOCKED_NOTE@ + a.explanation,
{
    let blocked = lowered_all(p.blocked_commands);
    assert(has_substring(normalized_command(a.command), blocked[i]));
}

/// An action that no blocked pattern matches and whose normalized command is
/// a lowercased allowed command always comes out low risk.
pub proof fn law_allowed_commands_become_low(p: PolicyView, a: ActionView, i: int)
    requires
        !matches_blocked(lowered_all(p.blocked_commands), normalized_command(a.command)),
        0 <= i < p.allowed_commands.len(),
        normalized_command(a.command) == unicode_lowercase(p.allowed_commands[i]),
    ensures
        sanitized(p, a).risk_level == RiskLevel::Low,
        sanitized(p, a).explanation == ALLOWED_NOTE@ + a.explanation,
{
    let allowed = lowered_all(p.allowed_commands);
    assert(normalized_command(a.command) == allowed[i]);
}

/// Among the override rules that fire on a command, the last one decides the
/// risk level; when none fires, the risk level is the one proposed.
pub proof fn law_last_matching_override_wins(
    rules: Seq<RuleView>,
    patterns: Seq<Seq<char>>,
    cmd: Seq<char>,
    a: ActionView,
    n: int,
)
    requires
        0 <= n <= rules.len(),
        patterns.len() == rules.len(),
    ensures
        (forall|k: int| 0 <= k < n ==> !has_substring(cmd, #[trigger] patterns[k])) ==> apply_overrides(
            rules,
            patterns,
            cmd,
            a,
            n,
        ).risk_level == a.risk_level,
        forall|j: int|
            0 <= j < n && has_substring(cmd, #[trigger] patterns[j]) && (forall|k: int|
                j < k < n ==> !has_substring(cmd, #[trigger] patterns[k])) ==> apply_overrides(
                rules,
                patterns,
                cmd,
                a,
                n,
            ).risk_level == rules[j].risk_level,
    decreases n,
{
    if n > 0 {
        law_last_matching_override_wins(rules, patterns, cmd, a, n - 1);
        assert forall|j: int|
            0 <= j < n && has_substring(cmd, #[trigger] patterns[j]) && (forall|k: int|
                j < k < n ==> !has_substring(cmd, #[trigger] patterns[k])) implies apply_overrides(
            rules,
            patterns,
            cmd,
            a,
            n,
        ).risk_level == rules[j].risk_level by {
            if j < n - 1 {
                assert(!has_substring(cmd, patterns[n - 1]));
            }
        }
    }
}

/// A category the model already gave is never replaced by the word-based
/// guess; only override rules with a category can change it.
pub proof fn law_known_category_kept_without_category_rules(p: PolicyView, a: ActionView)
    requires
        a.category != ActionCategory::Unknown,
        forall|k: int| 0 <= k < p.risk_overrides.len() ==> (#[trigger] p.risk_overrides[k]).category
            is None,
    ensures
        sanitized(p, a).category == a.category,
{
    lemma_overrides_keep_category(
        p.risk_overrides,
        lowered_rule_patterns(p.risk_overrides),
        normalized_command(a.command),
        a,
        p.risk_overrides.len() as int,
    );
}

proof fn lemma_overrides_keep_category(
    rules: Seq<RuleView>,
    patterns: Seq<Seq<char>>,
    cmd: Seq<char>,
    a: ActionView,
    n: int,
)
    requires
        n <= rules.len(),
        forall|k: int| 0 <= k < rules.len() ==> (#[trigger] rules[k]).category is None,
    ensures
        apply_overrides(rules, patterns, cmd, a, n).category == a.category,
    decreases n,
{
    if n > 0 {
        lemma_overrides_keep_category(rules, patterns, cmd, a, n - 1);
    }
}

} // verus!

verus! {

proof fn lemma_no_override_fires(
    rules: Seq<RuleView>,
    patterns: Seq<Seq<char>>,
    cmd: Seq<char>,
    a: ActionView,
    n: int,
)
    requires
        forall|k: int| 0 <= k < n ==> !has_substring(cmd, #[trigger] patterns[k]),
    ensures
        apply_overrides(rules, patterns, cmd, a, n) == a,
    decreases n,
{
    if n > 0 {
        lemma_no_override_fires(rules, patterns, cmd, a, n - 1);
    }
}

/// An action is pre-approved only when its trimmed, lowercased command is
/// exactly a lowercased allowed command: when no blocked pattern occurs in
/// it, no allowed command equals it and no override pattern occurs in it,
/// the policy engine leaves its command, risk level and explanation as
/// proposed (containing an allowed command is not enough).
pub proof fn law_only_exact_allowed_commands_are_preapproved(p: PolicyView, a: ActionView)
    requires
        forall|i: int|
            0 <= i < p.blocked_commands.len() ==> !has_substring(
                normalized_command(a.command),
                unicode_lowercase(#[trigger] p.blocked_commands[i]),
            ),
        forall|i: int|
            0 <= i < p.allowed_commands.len() ==> normalized_command(a.command)
                != unicode_lowercase(#[trigger] p.allowed_commands[i]),
        forall|k: int|
            0 <= k < p.risk_overrides.len() ==> !has_substring(
                normalized_command(a.command),
                unicode_lowercase((#[trigger] p.risk_overrides[k]).pattern),
            ),
    ensures
        sanitized(p, a).command == a.command,
        sanitized(p, a).risk_level == a.risk_level,
        sanitized(p, a).explanation == a.explanation,
{
    let cmd = normalized_command(a.command);
    let blocked = lowered_all(p.blocked_commands);
    let allowed = lowered_all(p.allowed_commands);
    let pats = lowered_rule_patterns(p.risk_overrides);
    assert forall|i: int| 0 <= i < blocked.len() implies !has_substring(cmd, #[trigger] blocked[i]) by {
        assert(blocked[i] == unicode_lowercase(p.blocked_commands[i]));
    }
    assert forall|i: int| 0 <= i < allowed.len() implies cmd != #[trigger] allowed[i] by {
        assert(allowed[i] == unicode_lowercase(p.allowed_commands[i]));
    }
    assert forall|k: int| 0 <= k < pats.len() implies !has_substring(cmd, #[trigger] pats[k]) by {
        assert(pats[k] == unicode_lowercase(p.risk_overrides[k].pattern));
    }
    lemma_no_override_fires(p.risk_overrides, pats, cmd, a, p.risk_overrides.len() as int);
}

/// The word-based category guess: an action of unknown category that no
/// blocked pattern, allowed command or override rule touches becomes
/// package management if its normalized command mentions `apt `, `apt-get `
/// or `dpkg `; else service control if it mentions `systemctl ` or
/// `service `; else network configuration if it mentions `ip `,
/// `ifconfig `, `ufw ` or `iptables `; else it stays unknown. A category
/// the model gave is never replaced by the guess.
pub proof fn law_category_guess(p: PolicyView, a: ActionView)
    requires
        forall|i: int|
            0 <= i < p.blocked_commands.len() ==> !has_substring(
                normalized_command(a.command),
                unicode_lowercase(#[trigger] p.blocked_commands[i]),
            ),
        forall|i: int|
            0 <= i < p.allowed_commands.len() ==> normalized_command(a.command)
                != unicode_lowercase(#[trigger] p.allowed_commands[i]),
        forall|k: int|
            0 <= k < p.risk_overrides.len() ==> !has_substring(
                normalized_command(a.command),
                unicode_lowercase((#[trigger] p.risk_overrides[k]).pattern),
            ),
    ensures
        ({
            let c = normalized_command(a.command);
            let r = sanitized(p, a).category;
            &&& a.category != ActionCategory::Unknown ==> r == a.category
            &&& a.category == ActionCategory::Unknown && (has_substring(c, "apt "@) || has_substring(
                c,
                "apt-get "@,
            ) || has_substring(c, "dpkg "@)) ==> r == ActionCategory::PackageManagement
            &&& a.category == ActionCategory::Unknown && !(has_substring(c, "apt "@) || has_substring(
                c,
                "apt-get "@,
            ) || has_substring(c, "dpkg "@)) && (has_substring(c, "systemctl "@) || has_substring(
                c,
                "service "@,
            )) ==> r == ActionCategory::ServiceControl
            &&& a.category == ActionCategory::Unknown && !(has_substring(c, "apt "@) || has_substring(
                c,
                "apt-get "@,
            ) || has_substring(c, "dpkg "@)) && !(has_substring(c, "systemctl "@) || has_substring(
                c,
                "service "@,
            )) && (has_substring(c, "ip "@) || has_substring(c, "ifconfig "@) || has_substring(
                c,
                "ufw "@,
            ) || has_substring(c, "iptables "@)) ==> r == ActionCategory::NetworkConfiguration
            &&& a.category == ActionCategory::Unknown && !(has_substring(c, "apt "@) || has_substring(
                c,
                "apt-get "@,
            ) || has_substring(c, "dpkg "@)) && !(has_substring(c, "systemctl "@) || has_substring(
                c,
                "service "@,
            )) && !(has_substring(c, "ip "@) || has_substring(c, "ifconfig "@) || has_substring(
                c,
                "ufw "@,
            ) || has_substring(c, "iptables "@)) ==> r == ActionCategory::Unknown
        }),
{
    let cmd = normalized_command(a.command);
    let blocked = lowered_all(p.blocked_commands);
    let allowed = lowered_all(p.allowed_commands);
    let pats = lowered_rule_patterns(p.risk_overrides);
    assert forall|i: int| 0 <= i < blocked.len() implies !has_substring(cmd, #[trigger] blocked[i]) by {
        assert(blocked[i] == unicode_lowercase(p.blocked_commands[i]));
    }
    assert forall|i: int| 0 <= i < allowed.len() implies cmd != #[trigger] allowed[i] by {
        assert(allowed[i] == unicode_lowercase(p.allowed_commands[i]));
    }
    assert forall|k: int| 0 <= k < pats.len() implies !has_substring(cmd, #[trigger] pats[k]) by {
        assert(pats[k] == unicode_lowercase(p.risk_overrides[k].pattern));
    }
    lemma_no_override_fires(p.risk_overrides, pats, cmd, a, p.risk_overrides.len() as int);
}

} // verus!
