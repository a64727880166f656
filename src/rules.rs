//! Deciding whether a conditional artifact applies to an execution context.
use crate::minecraft::{Argument, FeatureRule, Library, Os, OsRule, Rule, RuleAction};
use crate::text::same_text;
use vstd::prelude::*;

verus! {

/// The platform and launcher state that rules are evaluated against.
#[derive(Debug, Clone)]
pub struct ExecutionContext {
    /// The operating system, as rules name it
    pub os: Os,
    /// The host's OS version string, which a rule's version pattern is matched against
    pub os_version: Option<String>,
    /// The CPU architecture
    pub arch: Option<String>,
    /// The names of the launcher features that are switched on
    pub features: Vec<String>,
}

/// What a regular-expression engine says of `pattern` on `text`: `None` when
/// `pattern` is not a valid regular expression, else whether it matches
/// somewhere in `text`.
pub uninterp spec fn regex_verdict(pattern: Seq<char>, text: Seq<char>) -> Option<bool>;

/// Relies on regex::Regex::new, which compiles `pattern` or refuses it, and on
/// Regex::is_match, which says whether the compiled pattern matches somewhere in `text`.
#[verifier::external_body]
fn regex_match(pattern: &str, text: &str) -> (r: Option<bool>)
    ensures
        r == regex_verdict(pattern@, text@),
{
    match regex::Regex::new(pattern) {
        Ok(re) => Some(re.is_match(text)),
        Err(_) => None,
    }
}

/// The OS version that version patterns are matched against; empty when unknown.
pub open spec fn host_version(ctx: ExecutionContext) -> Seq<char> {
    match ctx.os_version {
        Some(v) => v@,
        None => Seq::empty(),
    }
}

/// Whether the feature named `name` is switched on in `ctx`.
pub open spec fn feature_on(ctx: ExecutionContext, name: Seq<char>) -> bool {
    exists|i: int| 0 <= i < ctx.features.len() && ctx.features@[i]@ == name
}

/// An optional expectation on a flag holds: it is absent, or equals the flag.
pub open spec fn expectation_holds(expected: Option<bool>, on: bool) -> bool {
    match expected {
        Some(b) => b == on,
        None => true,
    }
}

/// Every feature predicate that `f` carries holds in `ctx`.
pub open spec fn features_match(f: FeatureRule, ctx: ExecutionContext) -> bool {
    &&& expectation_holds(f.is_demo_user, feature_on(ctx, "is_demo_user"@))
    &&& expectation_holds(f.has_custom_resolution, feature_on(ctx, "has_custom_resolution"@))
    &&& expectation_holds(f.has_quick_plays_support, feature_on(ctx, "has_quick_plays_support"@))
    &&& expectation_holds(
        f.is_quick_play_singleplayer,
        feature_on(ctx, "is_quick_play_singleplayer"@),
    )
    &&& expectation_holds(
        f.is_quick_play_multiplayer,
        feature_on(ctx, "is_quick_play_multiplayer"@),
    )
    &&& expectation_holds(f.is_quick_play_realms, feature_on(ctx, "is_quick_play_realms"@))
}

/// Every OS predicate that `o` carries holds in `ctx`: the name equals the
/// context's OS, the architecture equals the context's, and the version
/// pattern is a valid regular expression that matches the host's version.
pub open spec fn os_rule_matches(o: OsRule, ctx: ExecutionContext) -> bool {
    &&& (o.name matches Some(n) ==> n == ctx.os)
    &&& (o.arch matches Some(a) ==> (ctx.arch matches Some(c) && c@ == a@))
    &&& (o.version matches Some(v) ==> regex_verdict(v@, host_version(ctx)) == Some(true))
}

/// A rule matches a context when every predicate it carries holds there.
pub open spec fn rule_matches(r: Rule, ctx: ExecutionContext) -> bool {
    &&& (r.os matches Some(o) ==> os_rule_matches(o, ctx))
    &&& (r.features matches Some(f) ==> features_match(f, ctx))
}

/// The running decision after folding over `rules` from `false`: each matching
/// rule sets it to whether its action is `Allow`.
pub open spec fn rules_decision(rules: Seq<Rule>, ctx: ExecutionContext) -> bool
    decreases rules.len(),
{
    if rules.len() == 0 {
        false
    } else if rule_matches(rules.last(), ctx) {
        rules.last().action == RuleAction::Allow
    } else {
        rules_decision(rules.drop_last(), ctx)
    }
}

/// Whether an artifact under `rules` is included in `ctx`: always with no
/// rules, else by the last matching rule, and not at all if none matches.
pub open spec fn rules_allow(rules: Seq<Rule>, ctx: ExecutionContext) -> bool {
    rules.len() == 0 || rules_decision(rules, ctx)
}

/// Whether the feature named `name` is switched on in `ctx`.
fn feature_enabled(ctx: &ExecutionContext, name: &str) -> (r: bool)
    ensures
        r == feature_on(*ctx, name@),
{
    let mut i: usize = 0;
    while i < ctx.features.len()
        invariant
            i <= ctx.features@.len(),
            forall|j: int| 0 <= j < i ==> ctx.features@[j]@ != name@,
        decreases ctx.features@.len() - i,
    {
        if same_text(ctx.features[i].as_str(), name) {
            return true;
        }
        i = i + 1;
    }
    false
}

fn expectation_met(expected: Option<bool>, ctx: &ExecutionContext, name: &str) -> (r: bool)
    ensures
        r == expectation_holds(expected, feature_on(*ctx, name@)),
{
    match expected {
        Some(b) => b == feature_enabled(ctx, name),
        None => true,
    }
}

impl FeatureRule {
    /// Whether every feature predicate of this rule holds in `ctx`.
    pub fn matches(&self, ctx: &ExecutionContext) -> (r: bool)
        ensures
            r == features_match(*self, *ctx),
    {
        expectation_met(self.is_demo_user, ctx, "is_demo_user") && expectation_met(
            self.has_custom_resolution,
            ctx,
            "has_custom_resolution",
        ) && expectation_met(self.has_quick_plays_support, ctx, "has_quick_plays_support")
            && expectation_met(self.is_quick_play_singleplayer, ctx, "is_quick_play_singleplayer")
            && expectation_met(self.is_quick_play_multiplayer, ctx, "is_quick_play_multiplayer")
            && expectation_met(self.is_quick_play_realms, ctx, "is_quick_play_realms")
    }
}

impl OsRule {
    /// Whether every OS predicate of this rule holds in `ctx`.
    pub fn matches(&self, ctx: &ExecutionContext) -> (r: bool)
        ensures
            r == os_rule_matches(*self, *ctx),
    {
        let name_ok = match self.name {
            Some(n) => n == ctx.os,
            None => true,
        };
        let arch_ok = match &self.arch {
            Some(a) => match &ctx.arch {
                Some(c) => *c == *a,
                None => false,
            },
            None => true,
        };
        let version_ok = match &self.version {
            Some(v) => {
                let verdict = match &ctx.os_version {
                    Some(h) => regex_match(v.as_str(), h.as_str()),
                    None => {
                        proof {
                            reveal_strlit("");
                            assert(""@ =~= Seq::<char>::empty());
                        }
                        regex_match(v.as_str(), "")
                    },
                };
                match verdict {
                    Some(b) => b,
                    None => false,
                }
            },
            None => true,
        };
        name_ok && arch_ok && version_ok
    }
}

impl Rule {
    /// Whether every predicate of this rule holds in `ctx`; a rule with no
    /// predicate matches every context.
    pub fn matches(&self, ctx: &ExecutionContext) -> (r: bool)
        ensures
            r == rule_matches(*self, *ctx),
    {
        let os_ok = match &self.os {
            Some(o) => o.matches(ctx),
            None => true,
        };
        let features_ok = match &self.features {
            Some(f) => f.matches(ctx),
            None => true,
        };
        os_ok && features_ok
    }
}

/// Decides whether an artifact under `rules` applies in `ctx`: with no rules it
/// does; otherwise the last rule that matches decides, and if none matches it
/// does not.
pub fn evaluate(rules: &Vec<Rule>, ctx: &ExecutionContext) -> (r: bool)
    ensures
        r == rules_allow(rules@, *ctx),
{
    if rules.len() == 0 {
        return true;
    }
    let mut decision = false;
    let mut i: usize = 0;
    while i < rules.len()
        invariant
            i <= rules@.len(),
            decision == rules_decision(rules@.subrange(0, i as int), *ctx),
        decreases rules@.len() - i,
    {
        proof {
            assert(rules@.subrange(0, i + 1).drop_last() =~= rules@.subrange(0, i as int));
        }
        if rules[i].matches(ctx) {
            decision = rules[i].action == RuleAction::Allow;
        }
        i = i + 1;
    }
    proof {
        assert(rules@.subrange(0, rules@.len() as int) =~= rules@);
    }
    decision
}

/// The rules of an optional rule list; an absent list is an empty one.
pub open spec fn optional_rules(rules: Option<Vec<Rule>>) -> Seq<Rule> {
    match rules {
        Some(r) => r@,
        None => Seq::empty(),
    }
}

impl Library {
    /// Whether this library is included in `ctx`, by its rules.
    pub fn applies(&self, ctx: &ExecutionContext) -> (r: bool)
        ensures
            r == rules_allow(optional_rules(self.rules), *ctx),
    {
        match &self.rules {
            Some(rules) => evaluate(rules, ctx),
            None => true,
        }
    }
}

impl Argument {
    /// Whether this argument is passed in `ctx`: a plain argument always is, a
    /// ruled one by its rules.
    pub fn applies(&self, ctx: &ExecutionContext) -> (r: bool)
        ensures
            r == match self {
                Argument::Normal(_) => true,
                Argument::Ruled { rules, .. } => rules_allow(rules@, *ctx),
            },
    {
        match self {
            Argument::Normal(_) => true,
            Argument::Ruled { rules, .. } => evaluate(rules, ctx),
        }
    }
}

/// With no rules, every context includes the artifact.
pub proof fn lemma_no_rules_allow(ctx: ExecutionContext)
    ensures
        rules_allow(Seq::empty(), ctx),
{
}

/// A rule with neither an OS nor a feature predicate matches every context.
pub proof fn lemma_unconditional_rule_matches(r: Rule, ctx: ExecutionContext)
    requires
        r.os is None,
        r.features is None,
    ensures
        rule_matches(r, ctx),
{
}

/// The last matching rule wins: when the rule at `i` matches and no later rule
/// does, the decision is whether that rule allows.
pub proof fn lemma_last_match_wins(rules: Seq<Rule>, i: int, ctx: ExecutionContext)
    requires
        0 <= i < rules.len(),
        rule_matches(rules[i], ctx),
        forall|j: int| i < j < rules.len() ==> !rule_matches(rules[j], ctx),
    ensures
        rules_allow(rules, ctx) == (rules[i].action == RuleAction::Allow),
    decreases rules.len(),
{
    if i < rules.len() - 1 {
        let t = rules.drop_last();
        assert(t[i] == rules[i]);
        assert(!rule_matches(rules[rules.len() - 1], ctx));
        lemma_last_match_wins(t, i, ctx);
    }
}

/// Of an allowing and a disallowing rule that both match, the later one decides.
pub proof fn lemma_later_of_two_decides(allow: Rule, disallow: Rule, ctx: ExecutionContext)
    requires
        allow.action == RuleAction::Allow,
        disallow.action == RuleAction::Disallow,
        rule_matches(allow, ctx),
        rule_matches(disallow, ctx),
    ensures
        !rules_allow(seq![allow, disallow], ctx),
        rules_allow(seq![disallow, allow], ctx),
{
    lemma_last_match_wins(seq![allow, disallow], 1, ctx);
    lemma_last_match_wins(seq![disallow, allow], 1, ctx);
}

} // verus!
