//! Window rules: what the user wants for windows that match a description.

use vstd::prelude::*;
use regex::Regex;
use crate::text::{opt_str, same, starts_with, texts};

verus! {

/// The compiled form of a regular expression.
#[verifier::external_type_specification]
#[verifier::external_body]
pub struct ExRegex(regex::Regex);

/// Why a regular expression could not be compiled.
#[verifier::external_type_specification]
#[verifier::external_body]
pub struct ExRegexError(regex::Error);

/// Names what `regex::Regex::new` makes of a pattern: `None` where it refuses
/// the pattern.
pub uninterp spec fn compiled_regex(pattern: Seq<char>) -> Option<regex::Regex>;

/// Names what `regex::Regex::is_match` says of a text.
pub uninterp spec fn regex_found(re: regex::Regex, text: Seq<char>) -> bool;

/// Calls `regex::Regex::new`. Claims only that the pattern alone decides what
/// comes out, which [`compiled_regex`] names.
#[verifier::external_body]
fn regex_new(pattern: &str) -> (r: Result<Regex, regex::Error>)
    ensures
        (match r {
            Ok(re) => Some(re),
            Err(_) => None,
        }) == compiled_regex(pattern@),
{
    Regex::new(pattern)
}

/// Calls `regex::Regex::is_match`. Claims only that the expression and the text
/// alone decide the answer, which [`regex_found`] names.
#[verifier::external_body]
fn regex_is_match(re: &Regex, text: &str) -> (r: bool)
    ensures
        r == regex_found(*re, text@),
{
    re.is_match(text)
}

/// The compiled form of an optional pattern; `None` where it is missing or does
/// not compile.
pub open spec fn compiled(pattern: Option<String>) -> Option<Regex> {
    match pattern {
        Some(pattern) => compiled_regex(pattern@),
        None => None,
    }
}

/// Compile an optional pattern.
pub fn compile_regex(value: Option<String>) -> (r: Option<Regex>)
    ensures
        r == compiled(value),
{
    match value {
        Some(pattern) => match regex_new(pattern.as_str()) {
            Ok(re) => Some(re),
            Err(_) => None,
        },
        None => None,
    }
}

/// A rule: the conditions a window has to meet, and what to do with it.
#[derive(Debug)]
pub struct Rule {
    /// Application ids, one of which the window must have
    pub app_id: Option<Vec<String>>,
    /// Prefixes, with one of which the application id must start
    pub app_id_prefixes: Option<Vec<String>>,
    /// Titles, one of which the window must have
    pub title: Option<Vec<String>>,
    /// Expression that the application id must match
    pub app_id_regex: Option<Regex>,
    /// Expression that the title must match
    pub title_regex: Option<Regex>,
    /// Whether the client must only support client-side decorations
    pub require_csd_only: Option<bool>,
    /// Whether the window must have no parent
    pub require_no_parent: Option<bool>,
    /// Use server-side decorations whatever the client prefers
    pub force_ssd: bool,
    /// Pixels to swallow from the top of the window content
    pub swallow_top: Option<i32>,
}

/// What the matching rules ask for.
#[derive(Debug, Clone, Copy, PartialEq, Eq, Structural)]
pub struct AppliedRules {
    pub force_ssd: bool,
    pub swallow_top: Option<i32>,
}

/// Whether a text that may be missing is one of those listed; without a list
/// everything is.
pub open spec fn listed(list: Option<Vec<String>>, text: Option<Seq<char>>) -> bool {
    match (list, text) {
        (None, _) => true,
        (Some(list), Some(text)) => texts(list@).contains(text),
        (Some(_), None) => false,
    }
}

/// Whether a text that may be missing starts with one of the prefixes; without
/// a list every text does.
pub open spec fn prefixed(list: Option<Vec<String>>, text: Option<Seq<char>>) -> bool {
    match (list, text) {
        (None, _) => true,
        (Some(list), Some(text)) => exists|i: int|
            0 <= i < list@.len() && (#[trigger] list@[i])@.is_prefix_of(text),
        (Some(_), None) => false,
    }
}

/// Whether a text that may be missing matches the expression; without one
/// every text does.
pub open spec fn found(re: Option<Regex>, text: Option<Seq<char>>) -> bool {
    match (re, text) {
        (None, _) => true,
        (Some(re), Some(text)) => regex_found(re, text),
        (Some(_), None) => false,
    }
}

/// Whether a condition, where it is required, is as required.
pub open spec fn required(want: Option<bool>, holds: bool) -> bool {
    match want {
        Some(want) => want == holds,
        None => true,
    }
}

impl Rule {
    /// Whether a window meets every condition of the rule, given whether its
    /// application id and its title match the expressions.
    pub open spec fn matches_if(
        self,
        app_id: Option<Seq<char>>,
        title: Option<Seq<char>>,
        decoration_hint: Option<u32>,
        has_parent: bool,
        app_id_found: bool,
        title_found: bool,
    ) -> bool {
        &&& listed(self.app_id, app_id)
        &&& prefixed(self.app_id_prefixes, app_id)
        &&& listed(self.title, title)
        &&& app_id_found
        &&& title_found
        &&& required(self.require_csd_only, decoration_hint == Some(0u32))
        &&& required(self.require_no_parent, !has_parent)
    }

    /// Whether a window meets every condition of the rule.
    pub open spec fn matches(
        self,
        app_id: Option<Seq<char>>,
        title: Option<Seq<char>>,
        decoration_hint: Option<u32>,
        has_parent: bool,
    ) -> bool {
        self.matches_if(
            app_id,
            title,
            decoration_hint,
            has_parent,
            found(self.app_id_regex, app_id),
            found(self.title_regex, title),
        )
    }

    /// Whether a window meets every condition of the rule, given whether its
    /// application id and its title match the expressions
    pub fn is_met(
        &self,
        app_id: Option<&str>,
        title: Option<&str>,
        decoration_hint: Option<u32>,
        has_parent: bool,
        app_id_found: bool,
        title_found: bool,
    ) -> (r: bool)
        ensures
            r == self.matches_if(
                opt_str(app_id),
                opt_str(title),
                decoration_hint,
                has_parent,
                app_id_found,
                title_found,
            ),
    {
        let csd_only: bool = match decoration_hint {
            Some(hint) => hint == 0,
            None => false,
        };
        is_listed(&self.app_id, app_id) && is_prefixed(&self.app_id_prefixes, app_id)
            && is_listed(&self.title, title) && app_id_found && title_found && is_as_required(
            self.require_csd_only,
            csd_only,
        ) && is_as_required(self.require_no_parent, !has_parent)
    }
}

/// What the rules ask for: server-side decorations if one of the matching rules
/// forces them, and the last of their amounts to swallow.
pub open spec fn rules_applied(
    rules: Seq<Rule>,
    app_id: Option<Seq<char>>,
    title: Option<Seq<char>>,
    decoration_hint: Option<u32>,
    has_parent: bool,
) -> AppliedRules
    decreases rules.len(),
{
    if rules.len() == 0 {
        AppliedRules { force_ssd: false, swallow_top: None }
    } else {
        let earlier = rules_applied(
            rules.drop_last(),
            app_id,
            title,
            decoration_hint,
            has_parent,
        );
        let rule = rules.last();
        if rule.matches(app_id, title, decoration_hint, has_parent) {
            AppliedRules {
                force_ssd: earlier.force_ssd || rule.force_ssd,
                swallow_top: match rule.swallow_top {
                    Some(amount) => Some(amount),
                    None => earlier.swallow_top,
                },
            }
        } else {
            earlier
        }
    }
}

/// Rules that a window does not match change nothing for it.
pub proof fn law_rules_that_do_not_match_change_nothing(
    rules: Seq<Rule>,
    app_id: Option<Seq<char>>,
    title: Option<Seq<char>>,
    decoration_hint: Option<u32>,
    has_parent: bool,
)
    requires
        forall|i: int|
            0 <= i < rules.len() ==> !(#[trigger] rules[i]).matches(
                app_id,
                title,
                decoration_hint,
                has_parent,
            ),
    ensures
        rules_applied(rules, app_id, title, decoration_hint, has_parent) == (AppliedRules {
            force_ssd: false,
            swallow_top: None,
        }),
    decreases rules.len(),
{
    if rules.len() > 0 {
        law_rules_that_do_not_match_change_nothing(
            rules.drop_last(),
            app_id,
            title,
            decoration_hint,
            has_parent,
        );
    }
}

#[verifier::loop_isolation(false)]
fn is_listed(list: &Option<Vec<String>>, text: Option<&str>) -> (r: bool)
    ensures
        r == listed(*list, opt_str(text)),
{
    let list: &Vec<String> = match list {
        Some(list) => list,
        None => return true,
    };
    let text: &str = match text {
        Some(text) => text,
        None => return false,
    };
    let mut i: usize = 0;
    while i < list.len()
        invariant
            i <= list@.len(),
            forall|j: int| 0 <= j < i ==> (#[trigger] list@[j])@ != text@,
        decreases list@.len() - i,
    {
        if same(list[i].as_str(), text) {
            assert(texts(list@)[i as int] == text@);
            return true;
        }
        i = i + 1;
    }
    assert forall|j: int| 0 <= j < texts(list@).len() implies texts(list@)[j] != text@ by {
        assert(list@[j]@ != text@);
    }
    false
}

#[verifier::loop_isolation(false)]
fn is_prefixed(list: &Option<Vec<String>>, text: Option<&str>) -> (r: bool)
    ensures
        r == prefixed(*list, opt_str(text)),
{
    let list: &Vec<String> = match list {
        Some(list) => list,
        None => return true,
    };
    let text: &str = match text {
        Some(text) => text,
        None => return false,
    };
    let mut i: usize = 0;
    while i < list.len()
        invariant
            i <= list@.len(),
            forall|j: int| 0 <= j < i ==> !(#[trigger] list@[j])@.is_prefix_of(text@),
        decreases list@.len() - i,
    {
        if starts_with(text, list[i].as_str()) {
            return true;
        }
        i = i + 1;
    }
    false
}

fn is_found(re: &Option<Regex>, text: Option<&str>) -> (r: bool)
    ensures
        r == found(*re, opt_str(text)),
{
    match (re, text) {
        (None, _) => true,
        (Some(re), Some(text)) => regex_is_match(re, text),
        (Some(_), None) => false,
    }
}

fn is_as_required(want: Option<bool>, holds: bool) -> (r: bool)
    ensures
        r == required(want, holds),
{
    match want {
        Some(want) => want == holds,
        None => true,
    }
}

/// Collect what the rules that match a window ask for.
pub fn apply_rules(
    rules: &Vec<Rule>,
    app_id: Option<&str>,
    title: Option<&str>,
    decoration_hint: Option<u32>,
    has_parent: bool,
) -> (r: AppliedRules)
    ensures
        r == rules_applied(rules@, opt_str(app_id), opt_str(title), decoration_hint, has_parent),
{
    let mut applied = AppliedRules { force_ssd: false, swallow_top: None };
    let mut i: usize = 0;
    while i < rules.len()
        invariant
            i <= rules@.len(),
            applied == rules_applied(
                rules@.take(i as int),
                opt_str(app_id),
                opt_str(title),
                decoration_hint,
                has_parent,
            ),
        decreases rules@.len() - i,
    {
        assert(rules@.take(i + 1).drop_last() =~= rules@.take(i as int));
        let rule = &rules[i];
        let app_id_found: bool = is_found(&rule.app_id_regex, app_id);
        let title_found: bool = is_found(&rule.title_regex, title);
        if rule.is_met(app_id, title, decoration_hint, has_parent, app_id_found, title_found) {
            if rule.force_ssd {
                applied.force_ssd = true;
            }
            if rule.swallow_top.is_some() {
                applied.swallow_top = rule.swallow_top;
            }
        }
        i = i + 1;
    }
    assert(rules@.take(i as int) =~= rules@);
    applied
}

/// A window that a rule matches meets each condition of it: its application and its title
/// are among those named, its application begins with one of the prefixes, both are found
/// by the expressions, and its decoration hint and its having a parent are as required. A
/// window that meets them all is matched.
pub proof fn law_rule_matches_if_each_condition_is_met(
    rule: Rule,
    app_id: Option<Seq<char>>,
    title: Option<Seq<char>>,
    decoration_hint: Option<u32>,
    has_parent: bool,
)
    ensures
        rule.matches(app_id, title, decoration_hint, has_parent) <==> {
            &&& rule.app_id matches Some(list) ==> app_id is Some && exists|i: int|
                0 <= i < list@.len() && (#[trigger] list@[i])@ == app_id->0
            &&& rule.app_id_prefixes matches Some(list) ==> app_id is Some && exists|i: int|
                0 <= i < list@.len() && (#[trigger] list@[i])@.is_prefix_of(app_id->0)
            &&& rule.title matches Some(list) ==> title is Some && exists|i: int|
                0 <= i < list@.len() && (#[trigger] list@[i])@ == title->0
            &&& rule.app_id_regex matches Some(re) ==> app_id is Some && regex_found(re, app_id->0)
            &&& rule.title_regex matches Some(re) ==> title is Some && regex_found(re, title->0)
            &&& rule.require_csd_only == Some(true) ==> decoration_hint == Some(0u32)
            &&& rule.require_csd_only == Some(false) ==> decoration_hint != Some(0u32)
            &&& rule.require_no_parent == Some(true) ==> !has_parent
            &&& rule.require_no_parent == Some(false) ==> has_parent
        },
{
    if let Some(list) = rule.app_id {
        if let Some(app_id) = app_id {
            lemma_texts_contain(list@, app_id);
        }
    }
    if let Some(list) = rule.title {
        if let Some(title) = title {
            lemma_texts_contain(list@, title);
        }
    }
}

proof fn lemma_texts_contain(list: Seq<String>, text: Seq<char>)
    ensures
        texts(list).contains(text) <==> exists|i: int|
            0 <= i < list.len() && (#[trigger] list[i])@ == text,
{
    if texts(list).contains(text) {
        let i = choose|i: int| 0 <= i < texts(list).len() && texts(list)[i] == text;
        assert(list[i]@ == text);
    }
    if exists|i: int| 0 <= i < list.len() && (#[trigger] list[i])@ == text {
        let i = choose|i: int| 0 <= i < list.len() && (#[trigger] list[i])@ == text;
        assert(texts(list)[i] == text);
    }
}

/// Of the rules that match, the last one that names an amount to swallow decides it, and any
/// one that forces decorations does. A rule behind them that does not match changes nothing.
pub proof fn law_later_rules_override_earlier_ones(
    rules: Seq<Rule>,
    rule: Rule,
    app_id: Option<Seq<char>>,
    title: Option<Seq<char>>,
    decoration_hint: Option<u32>,
    has_parent: bool,
)
    ensures
        ({
            let before = rules_applied(rules, app_id, title, decoration_hint, has_parent);
            let after = rules_applied(
                rules + seq![rule],
                app_id,
                title,
                decoration_hint,
                has_parent,
            );
            let matched = rule.matches(app_id, title, decoration_hint, has_parent);
            &&& matched && rule.swallow_top is Some ==> after.swallow_top == rule.swallow_top
            &&& !matched || rule.swallow_top is None ==> after.swallow_top == before.swallow_top
            &&& after.force_ssd <==> before.force_ssd || matched && rule.force_ssd
        }),
{
    let all = rules + seq![rule];
    assert(all.drop_last() =~= rules);
    assert(all.last() == rule);
}

} // verus!
