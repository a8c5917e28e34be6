//! Assesses a task's complexity and derives the suggested path through a
//! workflow from it.

use vstd::prelude::*;
use vstd::utf8::encode_utf8;
use crate::text::{
    contains, has_prefix, has_substring, lowercase_of, starts_with, str_eq, suffix_from,
    to_lowercase,
};
use super::definition::{
    Complexity, ComplexityRule, DefinitionView, HintView, NodeView, RuleView, SkippedStep,
    SkippedView, SuggestedStep, SuggestedView, WorkflowDefinition, WorkflowHintResult, WorkflowNode,
};

verus! {

// ---------------------------------------------------------------------------
// Specification
// ---------------------------------------------------------------------------

/// The rule of the first entry whose level is `level`.
pub open spec fn lookup_rule(rules: Seq<(Seq<char>, RuleView)>, level: Seq<char>) -> Option<
    RuleView,
>
    decreases rules.len(),
{
    if rules.len() == 0 {
        None
    } else if rules[0].0 == level {
        Some(rules[0].1)
    } else {
        lookup_rule(rules.drop_first(), level)
    }
}

/// Some keyword of the rule for `level`, lower-cased, occurs in `desc_lower`.
pub open spec fn rule_matches(
    rules: Seq<(Seq<char>, RuleView)>,
    level: Seq<char>,
    desc_lower: Seq<char>,
) -> bool {
    match lookup_rule(rules, level) {
        Some(rule) => exists|k: int|
            0 <= k < rule.nature.len() && has_substring(
                desc_lower,
                lowercase_of(#[trigger] rule.nature[k]),
            ),
        None => false,
    }
}

/// The level that a usable hint names, if the hint is usable.
pub open spec fn hinted_complexity(hint: Option<Seq<char>>) -> Option<Complexity> {
    match hint {
        Some(h) => Complexity::parse_label(lowercase_of(h)),
        None => None,
    }
}

/// The complexity assessed for a task: a usable hint wins; otherwise the
/// complex rule, then the medium rule, is tried on the lower-cased
/// description; otherwise the task is simple.
pub open spec fn determined_complexity(
    def: DefinitionView,
    desc: Seq<char>,
    hint: Option<Seq<char>>,
) -> Complexity {
    match hinted_complexity(hint) {
        Some(c) => c,
        None => {
            let d = lowercase_of(desc);
            if rule_matches(def.rules, "complex"@, d) {
                Complexity::Complex
            } else if rule_matches(def.rules, "medium"@, d) {
                Complexity::Medium
            } else {
                Complexity::Simple
            }
        },
    }
}

/// The condition that a node may be skipped at the assessed level.
pub open spec fn complexity_tag(c: Complexity) -> Seq<char> {
    "complexity:"@ + c.label()
}

/// Words that show a concrete task.
pub open spec fn task_keywords() -> Seq<Seq<char>> {
    seq![
        "修改"@,
        "添加"@,
        "删除"@,
        "修复"@,
        "实现"@,
        "重构"@,
        "创建"@,
        "fix"@,
        "add"@,
        "delete"@,
        "implement"@,
        "refactor"@,
        "create"@,
        "update"@,
        "change"@,
        "move"@,
        "remove"@,
        "build"@,
    ]
}

/// Openings of a greeting.
pub open spec fn greetings() -> Seq<Seq<char>> {
    seq!["你好"@, "hello"@, "hi"@, "hey"@, "嗨"@]
}

/// Words that show a configuration change.
pub open spec fn config_keywords() -> Seq<Seq<char>> {
    seq!["配置"@, "config"@, "设置"@, "env"@, ".env"@, "yaml"@, "json配置"@]
}

pub open spec fn contains_any(desc: Seq<char>, words: Seq<Seq<char>>) -> bool {
    exists|k: int| 0 <= k < words.len() && has_substring(desc, #[trigger] words[k])
}

pub open spec fn starts_with_any(desc: Seq<char>, words: Seq<Seq<char>>) -> bool {
    exists|k: int| 0 <= k < words.len() && has_prefix(desc, #[trigger] words[k])
}

/// `text` between the corner brackets that quote a node name.
pub open spec fn quoted(before: Seq<char>, name: Seq<char>) -> Seq<char> {
    before + "「"@ + name + "」"@
}

/// Why the single condition `cond` lets the node called `name` be skipped,
/// if it does.
pub open spec fn condition_reason(
    cond: Seq<char>,
    tag: Seq<char>,
    desc_lower: Seq<char>,
    name: Seq<char>,
) -> Option<Seq<char>> {
    if has_prefix(cond, "complexity:"@) && cond == tag {
        Some(quoted(cond.skip("complexity:"@.len() as int) + "任务可跳过"@, name))
    } else if cond == "no_task_intent"@ {
        if !contains_any(desc_lower, task_keywords()) {
            Some(quoted("无明确任务意图，跳过"@, name))
        } else {
            None
        }
    } else if cond == "simple_greeting"@ {
        if starts_with_any(desc_lower, greetings()) && (encode_utf8(desc_lower).len() as usize)
            < 20 {
            Some(quoted("简单问候，跳过"@, name))
        } else {
            None
        }
    } else if cond == "config_only"@ {
        if contains_any(desc_lower, config_keywords()) && !has_substring(desc_lower, "重构"@)
            && !has_substring(desc_lower, "架构"@) {
            Some(quoted("仅配置变更，跳过"@, name))
        } else {
            None
        }
    } else {
        None
    }
}

/// The reason given by the first condition, in order, that fires.
pub open spec fn first_reason(
    conds: Seq<Seq<char>>,
    tag: Seq<char>,
    desc_lower: Seq<char>,
    name: Seq<char>,
) -> Option<Seq<char>>
    decreases conds.len(),
{
    if conds.len() == 0 {
        None
    } else {
        match condition_reason(conds[0], tag, desc_lower, name) {
            Some(r) => Some(r),
            None => first_reason(conds.drop_first(), tag, desc_lower, name),
        }
    }
}

/// Why a node is skipped for a task, or `None` when it is kept. A required
/// node is always kept.
pub open spec fn skip_reason(node: NodeView, tag: Seq<char>, desc: Seq<char>) -> Option<
    Seq<char>,
> {
    if node.required {
        None
    } else {
        first_reason(node.skip_when, tag, lowercase_of(desc), node.name)
    }
}

/// The kept nodes, in order, as suggested steps.
pub open spec fn suggested_of(nodes: Seq<NodeView>, tag: Seq<char>, desc: Seq<char>) -> Seq<
    SuggestedView,
>
    decreases nodes.len(),
{
    if nodes.len() == 0 {
        Seq::empty()
    } else {
        let rest = suggested_of(nodes.drop_last(), tag, desc);
        let n = nodes.last();
        match skip_reason(n, tag, desc) {
            None => rest.push(SuggestedView { id: n.id, name: n.name, action: n.action }),
            Some(_) => rest,
        }
    }
}

/// The skipped nodes, in order, with their reasons.
pub open spec fn skipped_of(nodes: Seq<NodeView>, tag: Seq<char>, desc: Seq<char>) -> Seq<
    SkippedView,
>
    decreases nodes.len(),
{
    if nodes.len() == 0 {
        Seq::empty()
    } else {
        let rest = skipped_of(nodes.drop_last(), tag, desc);
        let n = nodes.last();
        match skip_reason(n, tag, desc) {
            None => rest,
            Some(r) => rest.push(SkippedView { id: n.id, reason: r }),
        }
    }
}

/// The reminder that goes with each level.
pub open spec fn reminder_of(c: Complexity) -> Seq<char> {
    match c {
        Complexity::Simple => "完成后请调用寸止(zhi)工具获取用户反馈"@,
        Complexity::Medium => "建议每步完成后调用寸止(zhi)确认，确保方向正确"@,
        Complexity::Complex => "请先确认方案再实施，每个关键节点调用寸止(zhi)确认"@,
    }
}

pub open spec fn opt_str_view(s: Option<&str>) -> Option<Seq<char>> {
    match s {
        Some(x) => Some(x@),
        None => None,
    }
}

pub open spec fn opt_string_view(s: Option<String>) -> Option<Seq<char>> {
    match s {
        Some(x) => Some(x@),
        None => None,
    }
}

/// The whole hint for a task.
pub open spec fn hint_result(def: DefinitionView, desc: Seq<char>, hint: Option<Seq<char>>) -> HintView {
    let c = determined_complexity(def, desc, hint);
    let tag = complexity_tag(c);
    HintView {
        complexity: c.label(),
        suggested_steps: suggested_of(def.nodes, tag, desc),
        skipped_steps: skipped_of(def.nodes, tag, desc),
        reminder: reminder_of(c),
    }
}

// ---------------------------------------------------------------------------
// Implementation
// ---------------------------------------------------------------------------

/// Assesses the task and derives the suggested steps.
///
/// `hint_complexity` is the assistant's own assessment; where it names a
/// level it takes precedence over keyword matching.
pub fn evaluate_workflow(
    definition: &WorkflowDefinition,
    task_description: &str,
    hint_complexity: Option<&str>,
) -> (r: WorkflowHintResult)
    ensures
        r@ == hint_result(definition@, task_description@, opt_str_view(hint_complexity)),
{
    let complexity = determine_complexity(definition, task_description, hint_complexity);
    let mut complexity_tag = String::from_str("complexity:");
    let label = complexity.to_string();
    complexity_tag.append(label.as_str());

    let ghost dv = definition@;
    let ghost tag = complexity_tag@;
    let ghost desc = task_description@;
    let mut suggested_steps: Vec<SuggestedStep> = Vec::new();
    let mut skipped_steps: Vec<SkippedStep> = Vec::new();
    let n = definition.nodes.len();
    let mut i: usize = 0;
    while i < n
        invariant
            n == definition.nodes@.len(),
            dv == definition@,
            tag == complexity_tag@,
            desc == task_description@,
            i <= n,
            Seq::new(suggested_steps@.len(), |k: int| suggested_steps@[k]@) =~= suggested_of(
                dv.nodes.take(i as int),
                tag,
                desc,
            ),
            Seq::new(skipped_steps@.len(), |k: int| skipped_steps@[k]@) =~= skipped_of(
                dv.nodes.take(i as int),
                tag,
                desc,
            ),
        decreases n - i,
    {
        let node = &definition.nodes[i];
        let skip = should_skip_node(node, complexity_tag.as_str(), task_description);
        proof {
            assert(dv.nodes.take(i + 1).drop_last() =~= dv.nodes.take(i as int));
            assert(dv.nodes.take(i + 1).last() == node@);
        }
        match skip {
            Some(reason) => {
                skipped_steps.push(SkippedStep { id: node.id.clone(), reason });
            },
            None => {
                suggested_steps.push(
                    SuggestedStep {
                        id: node.id.clone(),
                        name: node.name.clone(),
                        action: node.action.clone(),
                    },
                );
            },
        }
        i = i + 1;
    }
    proof {
        assert(dv.nodes.take(n as int) =~= dv.nodes);
    }
    let reminder = build_reminder(&complexity);
    WorkflowHintResult { complexity: label, suggested_steps, skipped_steps, reminder }
}

/// The assessed complexity of a task.
fn determine_complexity(
    definition: &WorkflowDefinition,
    task_description: &str,
    hint_complexity: Option<&str>,
) -> (r: Complexity)
    ensures
        r == determined_complexity(
            definition@,
            task_description@,
            opt_str_view(hint_complexity),
        ),
{
    if let Some(hint) = hint_complexity {
        if let Some(c) = Complexity::from_str_opt(hint) {
            return c;
        }
    }
    let desc_lower = to_lowercase(task_description);
    if matches_complexity_rule(definition, "complex", desc_lower.as_str()) {
        return Complexity::Complex;
    }
    if matches_complexity_rule(definition, "medium", desc_lower.as_str()) {
        return Complexity::Medium;
    }
    Complexity::Simple
}

/// The rule registered for `level`.
fn find_rule<'a>(definition: &'a WorkflowDefinition, level: &str) -> (r: Option<&'a ComplexityRule>)
    ensures
        match r {
            Some(rule) => lookup_rule(definition@.rules, level@) == Some(rule@),
            None => lookup_rule(definition@.rules, level@) is None,
        },
{
    let ghost rules = definition@.rules;
    let n = definition.complexity_rules.len();
    let mut i: usize = 0;
    assert(rules.skip(0) =~= rules);
    while i < n
        invariant
            n == rules.len(),
            rules == definition@.rules,
            i <= n,
            lookup_rule(rules, level@) == lookup_rule(rules.skip(i as int), level@),
        decreases n - i,
    {
        let entry = &definition.complexity_rules[i];
        proof {
            assert(rules.skip(i as int)[0] == rules[i as int]);
            assert(rules.skip(i as int).drop_first() =~= rules.skip(i + 1));
        }
        if str_eq(entry.0.as_str(), level) {
            return Some(&entry.1);
        }
        i = i + 1;
    }
    None
}

/// Whether the description matches the keywords of the rule for `level`.
fn matches_complexity_rule(definition: &WorkflowDefinition, level: &str, desc_lower: &str) -> (r:
    bool)
    ensures
        r == rule_matches(definition@.rules, level@, desc_lower@),
{
    match find_rule(definition, level) {
        Some(rule) => {
            let ghost nature = rule@.nature;
            let n = rule.nature.len();
            let mut k: usize = 0;
            while k < n
                invariant
                    n == nature.len(),
                    nature == rule@.nature,
                    lookup_rule(definition@.rules, level@) == Some(rule@),
                    k <= n,
                    forall|j: int|
                        0 <= j < k ==> !has_substring(desc_lower@, lowercase_of(#[trigger] nature[j])),
                decreases n - k,
            {
                let keyword = to_lowercase(rule.nature[k].as_str());
                if contains(desc_lower, keyword.as_str()) {
                    assert(nature[k as int] == rule.nature@[k as int]@);
                    assert(has_substring(desc_lower@, lowercase_of(nature[k as int])));
                    return true;
                }
                k = k + 1;
            }
            false
        },
        None => false,
    }
}

/// Whether one of `words` occurs in `desc`.
fn contains_any_word(desc: &str, words: &Vec<&str>) -> (r: bool)
    ensures
        r == contains_any(desc@, words.deep_view()),
{
    let ghost ws = words.deep_view();
    let mut k: usize = 0;
    while k < words.len()
        invariant
            ws == words.deep_view(),
            k <= words@.len(),
            forall|j: int| 0 <= j < k ==> !has_substring(desc@, #[trigger] ws[j]),
        decreases words@.len() - k,
    {
        if contains(desc, words[k]) {
            assert(has_substring(desc@, ws[k as int]));
            return true;
        }
        k = k + 1;
    }
    false
}

/// Whether `desc` begins with one of `words`.
fn starts_with_any_word(desc: &str, words: &Vec<&str>) -> (r: bool)
    ensures
        r == starts_with_any(desc@, words.deep_view()),
{
    let ghost ws = words.deep_view();
    let mut k: usize = 0;
    while k < words.len()
        invariant
            ws == words.deep_view(),
            k <= words@.len(),
            forall|j: int| 0 <= j < k ==> !has_prefix(desc@, #[trigger] ws[j]),
        decreases words@.len() - k,
    {
        if starts_with(desc, words[k]) {
            assert(has_prefix(desc@, ws[k as int]));
            return true;
        }
        k = k + 1;
    }
    false
}

/// `before「name」`.
fn quote_name(before: String, name: &str) -> (r: String)
    ensures
        r@ == quoted(before@, name@),
{
    let mut r = before;
    r.append("「");
    r.append(name);
    r.append("」");
    r
}

/// The reason a single skip condition gives, if it fires.
fn condition_reason_of(cond: &str, tag: &str, desc_lower: &str, name: &str) -> (r: Option<String>)
    ensures
        opt_string_view(r) == condition_reason(cond@, tag@, desc_lower@, name@),
{
    let prefix = "complexity:";
    if starts_with(cond, prefix) && str_eq(cond, tag) {
        let prefix_len = prefix.unicode_len();
        let mut level = suffix_from(cond, prefix_len);
        level.append("任务可跳过");
        return Some(quote_name(level, name));
    }
    if str_eq(cond, "no_task_intent") {
        let task_words = vec![
            "修改",
            "添加",
            "删除",
            "修复",
            "实现",
            "重构",
            "创建",
            "fix",
            "add",
            "delete",
            "implement",
            "refactor",
            "create",
            "update",
            "change",
            "move",
            "remove",
            "build",
        ];
        assert(task_words.deep_view() =~= task_keywords());
        if !contains_any_word(desc_lower, &task_words) {
            return Some(quote_name(String::from_str("无明确任务意图，跳过"), name));
        }
        None
    } else if str_eq(cond, "simple_greeting") {
        let greeting_words = vec!["你好", "hello", "hi", "hey", "嗨"];
        assert(greeting_words.deep_view() =~= greetings());
        if starts_with_any_word(desc_lower, &greeting_words) && desc_lower.len() < 20 {
            return Some(quote_name(String::from_str("简单问候，跳过"), name));
        }
        None
    } else if str_eq(cond, "config_only") {
        let config_words = vec!["配置", "config", "设置", "env", ".env", "yaml", "json配置"];
        assert(config_words.deep_view() =~= config_keywords());
        if contains_any_word(desc_lower, &config_words) && !contains(desc_lower, "重构")
            && !contains(desc_lower, "架构") {
            return Some(quote_name(String::from_str("仅配置变更，跳过"), name));
        }
        None
    } else {
        None
    }
}

/// Why the node may be skipped, or `None` when it is kept.
fn should_skip_node(node: &WorkflowNode, complexity_tag: &str, task_description: &str) -> (r:
    Option<String>)
    ensures
        opt_string_view(r) == skip_reason(node@, complexity_tag@, task_description@),
{
    if node.required {
        return None;
    }
    let desc_lower = to_lowercase(task_description);
    let ghost conds = node@.skip_when;
    let n = node.skip_when.len();
    let mut i: usize = 0;
    assert(conds.skip(0) =~= conds);
    while i < n
        invariant
            n == conds.len(),
            conds == node@.skip_when,
            !node.required,
            desc_lower@ == lowercase_of(task_description@),
            i <= n,
            first_reason(conds, complexity_tag@, desc_lower@, node.name@) == first_reason(
                conds.skip(i as int),
                complexity_tag@,
                desc_lower@,
                node.name@,
            ),
        decreases n - i,
    {
        proof {
            assert(conds.skip(i as int)[0] == conds[i as int]);
            assert(conds.skip(i as int).drop_first() =~= conds.skip(i + 1));
        }
        let reason = condition_reason_of(
            node.skip_when[i].as_str(),
            complexity_tag,
            desc_lower.as_str(),
            node.name.as_str(),
        );
        if reason.is_some() {
            return reason;
        }
        i = i + 1;
    }
    None
}

/// The reminder for a level.
fn build_reminder(complexity: &Complexity) -> (r: String)
    ensures
        r@ == reminder_of(*complexity),
{
    match complexity {
        Complexity::Simple => String::from_str("完成后请调用寸止(zhi)工具获取用户反馈"),
        Complexity::Medium => String::from_str("建议每步完成后调用寸止(zhi)确认，确保方向正确"),
        Complexity::Complex => String::from_str("请先确认方案再实施，每个关键节点调用寸止(zhi)确认"),
    }
}

} // verus!
