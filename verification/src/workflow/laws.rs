//! What holds of every hint: how the steps relate to the workflow's nodes,
//! the precedence of the assistant's own assessment, and the guarantees
//! of the built-in workflow.

use vstd::prelude::*;
use vstd::utf8::is_ascii_chars;
use vstd::utf8::encode_utf8;
use crate::text::{ascii_lowercase, has_prefix, has_substring, lowercase_of};
use super::definition::{
    Complexity, DefinitionView, NodeView, RuleView, SkippedView, SuggestedView,
};
use super::engine::{
    complexity_tag, condition_reason, quoted, determined_complexity, first_reason, hint_result,
    hinted_complexity, skip_reason, skipped_of, suggested_of, lookup_rule, task_keywords,
    greetings, config_keywords,
};
use super::default::{default_definition, default_nodes};

verus! {

pub open spec fn step_of(n: NodeView) -> SuggestedView {
    SuggestedView { id: n.id, name: n.name, action: n.action }
}

proof fn lemma_step_counts(nodes: Seq<NodeView>, tag: Seq<char>, desc: Seq<char>)
    ensures
        suggested_of(nodes, tag, desc).len() + skipped_of(nodes, tag, desc).len() == nodes.len(),
    decreases nodes.len(),
{
    if nodes.len() > 0 {
        lemma_step_counts(nodes.drop_last(), tag, desc);
    }
}

proof fn lemma_kept_node_suggested(nodes: Seq<NodeView>, tag: Seq<char>, desc: Seq<char>, i: int)
    requires
        0 <= i < nodes.len(),
        skip_reason(nodes[i], tag, desc) is None,
    ensures
        exists|j: int|
            0 <= j < suggested_of(nodes, tag, desc).len() && #[trigger] suggested_of(
                nodes,
                tag,
                desc,
            )[j] == step_of(nodes[i]),
    decreases nodes.len(),
{
    let rest = suggested_of(nodes.drop_last(), tag, desc);
    if i == nodes.len() - 1 {
        assert(suggested_of(nodes, tag, desc)[rest.len() as int] == step_of(nodes[i]));
    } else {
        assert(nodes.drop_last()[i] == nodes[i]);
        lemma_kept_node_suggested(nodes.drop_last(), tag, desc, i);
        let j = choose|j: int| 0 <= j < rest.len() && #[trigger] rest[j] == step_of(nodes[i]);
        assert(suggested_of(nodes, tag, desc)[j] == step_of(nodes[i]));
    }
}

proof fn lemma_dropped_node_skipped(
    nodes: Seq<NodeView>,
    tag: Seq<char>,
    desc: Seq<char>,
    i: int,
    reason: Seq<char>,
)
    requires
        0 <= i < nodes.len(),
        skip_reason(nodes[i], tag, desc) == Some(reason),
    ensures
        exists|j: int|
            0 <= j < skipped_of(nodes, tag, desc).len() && #[trigger] skipped_of(nodes, tag, desc)[j]
                == (SkippedView { id: nodes[i].id, reason }),
    decreases nodes.len(),
{
    let rest = skipped_of(nodes.drop_last(), tag, desc);
    let want = SkippedView { id: nodes[i].id, reason };
    if i == nodes.len() - 1 {
        assert(skipped_of(nodes, tag, desc)[rest.len() as int] == want);
    } else {
        assert(nodes.drop_last()[i] == nodes[i]);
        lemma_dropped_node_skipped(nodes.drop_last(), tag, desc, i, reason);
        let j = choose|j: int| 0 <= j < rest.len() && #[trigger] rest[j] == want;
        assert(skipped_of(nodes, tag, desc)[j] == want);
    }
}

proof fn lemma_skipped_step_origin(nodes: Seq<NodeView>, tag: Seq<char>, desc: Seq<char>, j: int)
    requires
        0 <= j < skipped_of(nodes, tag, desc).len(),
    ensures
        exists|i: int|
            0 <= i < nodes.len() && (#[trigger] nodes[i]).id == skipped_of(nodes, tag, desc)[j].id
                && !nodes[i].required && skip_reason(nodes[i], tag, desc) == Some(
                skipped_of(nodes, tag, desc)[j].reason,
            ),
    decreases nodes.len(),
{
    let rest = skipped_of(nodes.drop_last(), tag, desc);
    let last = nodes.len() - 1;
    if j < rest.len() {
        lemma_skipped_step_origin(nodes.drop_last(), tag, desc, j);
        let i = choose|i: int|
            0 <= i < nodes.drop_last().len() && (#[trigger] nodes.drop_last()[i]).id == rest[j].id
                && !nodes.drop_last()[i].required && skip_reason(nodes.drop_last()[i], tag, desc)
                == Some(rest[j].reason);
        assert(nodes.drop_last()[i] == nodes[i]);
        assert(skipped_of(nodes, tag, desc)[j] == rest[j]);
    } else {
        assert(nodes[last] == nodes.last());
    }
}

/// Every node of the workflow becomes exactly one step: the suggested and
/// the skipped steps together are as many as the nodes.
pub proof fn law_every_node_is_one_step(def: DefinitionView, desc: Seq<char>, hint: Option<Seq<char>>)
    ensures
        hint_result(def, desc, hint).suggested_steps.len() + hint_result(
            def,
            desc,
            hint,
        ).skipped_steps.len() == def.nodes.len(),
{
    let c = determined_complexity(def, desc, hint);
    lemma_step_counts(def.nodes, complexity_tag(c), desc);
}

/// A required node is never skipped: whatever the task and hint, it appears
/// among the suggested steps with its id, name and action.
pub proof fn law_required_node_always_suggested(
    def: DefinitionView,
    desc: Seq<char>,
    hint: Option<Seq<char>>,
    i: int,
)
    requires
        0 <= i < def.nodes.len(),
        def.nodes[i].required,
    ensures
        hint_result(def, desc, hint).suggested_steps.contains(step_of(def.nodes[i])),
{
    let c = determined_complexity(def, desc, hint);
    let tag = complexity_tag(c);
    lemma_kept_node_suggested(def.nodes, tag, desc, i);
    let s = suggested_of(def.nodes, tag, desc);
    let j = choose|j: int| 0 <= j < s.len() && #[trigger] s[j] == step_of(def.nodes[i]);
    assert(s[j] == step_of(def.nodes[i]));
}

/// Each skipped step stands for a node that is not required, carrying that
/// node's id and the reason its conditions give.
pub proof fn law_skipped_steps_come_from_optional_nodes(
    def: DefinitionView,
    desc: Seq<char>,
    hint: Option<Seq<char>>,
    j: int,
)
    requires
        0 <= j < hint_result(def, desc, hint).skipped_steps.len(),
    ensures
        exists|i: int|
            0 <= i < def.nodes.len() && (#[trigger] def.nodes[i]).id == hint_result(
                def,
                desc,
                hint,
            ).skipped_steps[j].id && !def.nodes[i].required,
{
    let c = determined_complexity(def, desc, hint);
    lemma_skipped_step_origin(def.nodes, complexity_tag(c), desc, j);
}

/// The assistant's own assessment, where it names a level (in any letter
/// case), decides the complexity, whatever the description says.
pub proof fn law_hint_takes_precedence(
    def: DefinitionView,
    desc: Seq<char>,
    hint: Seq<char>,
    c: Complexity,
)
    requires
        hinted_complexity(Some(hint)) == Some(c),
    ensures
        hint_result(def, desc, Some(hint)).complexity == c.label(),
        determined_complexity(def, desc, Some(hint)) == c,
{
}

/// Every level's name is plain ASCII and parses back to the level, so
/// `Complexity::from_str_opt` undoes `Complexity::to_string`.
pub proof fn law_complexity_name_round_trip(c: Complexity)
    ensures
        is_ascii_chars(c.label()),
        Complexity::parse_label(ascii_lowercase(c.label())) == Some(c),
{
    reveal_strlit("simple");
    reveal_strlit("medium");
    reveal_strlit("complex");
    assert(ascii_lowercase(c.label()) =~= c.label());
    assert("simple"@[0] != "medium"@[0]);
    assert("simple"@[0] != "complex"@[0]);
    assert("medium"@[0] != "complex"@[0]);
}

proof fn lemma_default_ids()
    ensures
        default_nodes()[5].id == "gate"@,
        default_nodes()[2].id == "plan_design"@,
        forall|i: int| 0 <= i < 6 && i != 2 ==> default_nodes()[i].id != "plan_design"@,
{
    reveal_strlit("plan_design");
    reveal_strlit("memory_gate");
    reveal_strlit("read_context");
    reveal_strlit("execute");
    reveal_strlit("verify");
    reveal_strlit("gate");
    assert("plan_design"@[0] != "memory_gate"@[0]);
    assert("plan_design"@[0] != "read_context"@[0]);
    assert("plan_design"@[0] != "execute"@[0]);
    assert("plan_design"@[0] != "verify"@[0]);
    assert("plan_design"@[0] != "gate"@[0]);
}

/// In the built-in workflow the closing confirmation ("gate") is suggested
/// for every task and every hint.
pub proof fn law_default_gate_always_suggested(desc: Seq<char>, hint: Option<Seq<char>>)
    ensures
        exists|j: int|
            0 <= j < hint_result(default_definition(), desc, hint).suggested_steps.len() && (
            #[trigger] hint_result(default_definition(), desc, hint).suggested_steps[j]).id
                == "gate"@,
{
    lemma_default_ids();
    law_required_node_always_suggested(default_definition(), desc, hint, 5);
    let s = hint_result(default_definition(), desc, hint).suggested_steps;
    let j = choose|j: int| 0 <= j < s.len() && s[j] == step_of(default_nodes()[5]);
    assert(s[j].id == "gate"@);
}

/// The condition "complexity:<level>" fires exactly at that level.
proof fn lemma_level_condition(c: Complexity, d: Complexity, desc_lower: Seq<char>, name: Seq<char>)
    ensures
        condition_reason(complexity_tag(d), complexity_tag(c), desc_lower, name) == (if c == d {
            Some(quoted(d.label() + "任务可跳过"@, name))
        } else {
            None
        }),
{
    reveal_strlit("complexity:");
    reveal_strlit("simple");
    reveal_strlit("medium");
    reveal_strlit("complex");
    reveal_strlit("no_task_intent");
    reveal_strlit("simple_greeting");
    reveal_strlit("config_only");
    let t = complexity_tag(d);
    assert(t.subrange(0, "complexity:"@.len() as int) =~= "complexity:"@);
    assert(has_prefix(t, "complexity:"@));
    assert(t.skip("complexity:"@.len() as int) =~= d.label());
    assert(t[0] == 'c');
    assert(t != "no_task_intent"@);
    assert(t != "simple_greeting"@);
    assert(t != "config_only"@);
    assert(t[11] == d.label()[0]);
    assert(complexity_tag(c)[11] == c.label()[0]);
    assert("simple"@[0] != "medium"@[0]);
    assert("simple"@[0] != "complex"@[0]);
    assert("medium"@[0] != "complex"@[0]);
}

/// In the built-in workflow a complex task keeps the design step
/// ("plan_design"), and a simple one skips it with the reason
/// "simple任务可跳过「方案设计」".
pub proof fn law_default_design_step_follows_complexity(desc: Seq<char>, hint: Option<Seq<char>>)
    ensures
        determined_complexity(default_definition(), desc, hint) == Complexity::Complex ==> forall|
            j: int,
        |
            0 <= j < hint_result(default_definition(), desc, hint).skipped_steps.len()
                ==> (#[trigger] hint_result(default_definition(), desc, hint).skipped_steps[j]).id
                != "plan_design"@,
        determined_complexity(default_definition(), desc, hint) == Complexity::Simple
            ==> hint_result(default_definition(), desc, hint).skipped_steps.contains(
            SkippedView { id: "plan_design"@, reason: "simple任务可跳过「方案设计」"@ },
        ),
{
    let def = default_definition();
    let c = determined_complexity(def, desc, hint);
    let tag = complexity_tag(c);
    let node = default_nodes()[2];
    lemma_default_ids();
    let conds = node.skip_when;
    let dlow = crate::text::lowercase_of(desc);
    lemma_level_condition(c, Complexity::Simple, dlow, node.name);
    lemma_level_condition(c, Complexity::Medium, dlow, node.name);
    reveal_strlit("complexity:");
    reveal_strlit("complexity:simple");
    reveal_strlit("complexity:medium");
    reveal_strlit("simple");
    reveal_strlit("medium");
    assert(conds[0] =~= complexity_tag(Complexity::Simple));
    assert(conds[1] =~= complexity_tag(Complexity::Medium));
    assert(conds.drop_first()[0] == conds[1]);
    assert(conds.drop_first().drop_first() =~= Seq::<Seq<char>>::empty());
    if c == Complexity::Complex {
        assert(first_reason(conds.drop_first().drop_first(), tag, dlow, node.name) is None);
        assert(condition_reason(conds.drop_first()[0], tag, dlow, node.name) is None);
        assert(first_reason(conds.drop_first(), tag, dlow, node.name) is None);
        assert(condition_reason(conds[0], tag, dlow, node.name) is None);
        assert(skip_reason(node, tag, desc) is None);
        assert forall|j: int|
            0 <= j < hint_result(def, desc, hint).skipped_steps.len() implies (#[trigger] hint_result(
                def,
                desc,
                hint,
            ).skipped_steps[j]).id != "plan_design"@ by {
            lemma_skipped_step_origin(def.nodes, tag, desc, j);
            let s = skipped_of(def.nodes, tag, desc);
            let i = choose|i: int|
                0 <= i < def.nodes.len() && (#[trigger] def.nodes[i]).id == s[j].id
                    && !def.nodes[i].required && skip_reason(def.nodes[i], tag, desc) == Some(
                    s[j].reason,
                );
            if s[j].id == "plan_design"@ {
                assert(i == 2);
            }
        }
    }
    if c == Complexity::Simple {
        reveal_strlit("simple");
        reveal_strlit("方案设计");
        reveal_strlit("simple任务可跳过「方案设计」");
        reveal_strlit("任务可跳过");
        reveal_strlit("「");
        reveal_strlit("」");
        let reason = quoted("simple"@ + "任务可跳过"@, node.name);
        assert(reason =~= "simple任务可跳过「方案设计」"@);
        assert(skip_reason(node, tag, desc) == Some(reason));
        lemma_dropped_node_skipped(def.nodes, tag, desc, 2, reason);
        let s = skipped_of(def.nodes, tag, desc);
        let j = choose|j: int| 0 <= j < s.len() && #[trigger] s[j] == (SkippedView {
            id: def.nodes[2].id,
            reason,
        });
        assert(s[j] == (SkippedView { id: "plan_design"@, reason: "simple任务可跳过「方案设计」"@ }));
    }
}

// ---------------------------------------------------------------------------
// Keyword rules and skip conditions
// ---------------------------------------------------------------------------

/// Some keyword of `rule`, lower-cased, occurs in the lower-cased `desc`.
pub open spec fn mentions_keyword(rule: RuleView, desc: Seq<char>) -> bool {
    exists|k: int|
        0 <= k < rule.nature.len() && has_substring(
            lowercase_of(desc),
            lowercase_of(#[trigger] rule.nature[k]),
        )
}

/// Without a usable hint, a task that mentions no keyword of the complex rule
/// but some keyword of the medium rule is medium, whatever the simple rule
/// (or any other level's rule) says: only the complex and the medium rules
/// are ever consulted, the complex one first.
pub proof fn law_medium_keyword_without_complex_keyword_is_medium(
    def: DefinitionView,
    desc: Seq<char>,
    hint: Option<Seq<char>>,
    medium: RuleView,
)
    requires
        hinted_complexity(hint) is None,
        lookup_rule(def.rules, "medium"@) == Some(medium),
        mentions_keyword(medium, desc),
        forall|complex: RuleView|
            lookup_rule(def.rules, "complex"@) == Some(complex) ==> !mentions_keyword(
                complex,
                desc,
            ),
    ensures
        determined_complexity(def, desc, hint) == Complexity::Medium,
        hint_result(def, desc, hint).complexity == "medium"@,
{
    let k = choose|k: int|
        0 <= k < medium.nature.len() && has_substring(
            lowercase_of(desc),
            lowercase_of(#[trigger] medium.nature[k]),
        );
    assert(has_substring(lowercase_of(desc), lowercase_of(medium.nature[k])));
    match lookup_rule(def.rules, "complex"@) {
        Some(r) => {
            assert(!mentions_keyword(r, desc));
        },
        None => {},
    }
}

/// Without a usable hint, a task that mentions a keyword of the complex rule
/// is complex, whatever the other rules say.
pub proof fn law_complex_keyword_is_complex(
    def: DefinitionView,
    desc: Seq<char>,
    hint: Option<Seq<char>>,
    complex: RuleView,
)
    requires
        hinted_complexity(hint) is None,
        lookup_rule(def.rules, "complex"@) == Some(complex),
        mentions_keyword(complex, desc),
    ensures
        determined_complexity(def, desc, hint) == Complexity::Complex,
        hint_result(def, desc, hint).complexity == "complex"@,
{
    let k = choose|k: int|
        0 <= k < complex.nature.len() && has_substring(
            lowercase_of(desc),
            lowercase_of(#[trigger] complex.nature[k]),
        );
    assert(has_substring(lowercase_of(desc), lowercase_of(complex.nature[k])));
}

/// Without a usable hint, a task that mentions no keyword of the complex or
/// the medium rule is simple.
pub proof fn law_no_keyword_is_simple(def: DefinitionView, desc: Seq<char>, hint: Option<Seq<char>>)
    requires
        hinted_complexity(hint) is None,
        forall|r: RuleView|
            lookup_rule(def.rules, "complex"@) == Some(r) ==> !mentions_keyword(r, desc),
        forall|r: RuleView|
            lookup_rule(def.rules, "medium"@) == Some(r) ==> !mentions_keyword(r, desc),
    ensures
        determined_complexity(def, desc, hint) == Complexity::Simple,
        hint_result(def, desc, hint).complexity == "simple"@,
{
    match lookup_rule(def.rules, "complex"@) {
        Some(r) => {
            assert(!mentions_keyword(r, desc));
        },
        None => {},
    }
    match lookup_rule(def.rules, "medium"@) {
        Some(r) => {
            assert(!mentions_keyword(r, desc));
        },
        None => {},
    }
}

/// A node whose only skip condition is `cond`.
pub open spec fn only_condition(n: NodeView, cond: Seq<char>) -> bool {
    !n.required && n.skip_when == seq![cond]
}

proof fn lemma_single_condition(n: NodeView, cond: Seq<char>, tag: Seq<char>, desc: Seq<char>)
    requires
        only_condition(n, cond),
    ensures
        skip_reason(n, tag, desc) == condition_reason(cond, tag, lowercase_of(desc), n.name),
{
    let d = lowercase_of(desc);
    assert(n.skip_when.drop_first() =~= Seq::<Seq<char>>::empty());
    assert(n.skip_when[0] == cond);
    assert(first_reason(n.skip_when.drop_first(), tag, d, n.name) is None);
    assert(first_reason(n.skip_when, tag, d, n.name) == condition_reason(cond, tag, d, n.name));
}

proof fn lemma_not_level_condition(cond: Seq<char>)
    requires
        cond.len() > 0,
        cond[0] != 'c',
    ensures
        !has_prefix(cond, "complexity:"@),
{
    reveal_strlit("complexity:");
    if has_prefix(cond, "complexity:"@) {
        assert(cond.subrange(0, 11)[0] == cond[0]);
    }
}

/// The condition "no_task_intent" looks for the task words anywhere in the
/// lower-cased description: a node skipped only for lack of task intent is
/// suggested whenever some task word occurs at any position, and skipped
/// with "无明确任务意图，跳过「name」" when none occurs.
pub proof fn law_no_task_intent_looks_anywhere(
    def: DefinitionView,
    desc: Seq<char>,
    hint: Option<Seq<char>>,
    i: int,
)
    requires
        0 <= i < def.nodes.len(),
        only_condition(def.nodes[i], "no_task_intent"@),
    ensures
        (exists|k: int|
            0 <= k < task_keywords().len() && has_substring(
                lowercase_of(desc),
                #[trigger] task_keywords()[k],
            )) ==> hint_result(def, desc, hint).suggested_steps.contains(step_of(def.nodes[i])),
        (forall|k: int|
            0 <= k < task_keywords().len() ==> !has_substring(
                lowercase_of(desc),
                #[trigger] task_keywords()[k],
            )) ==> hint_result(def, desc, hint).skipped_steps.contains(
            SkippedView {
                id: def.nodes[i].id,
                reason: "无明确任务意图，跳过「"@ + def.nodes[i].name + "」"@,
            },
        ),
{
    let c = determined_complexity(def, desc, hint);
    let tag = complexity_tag(c);
    let n = def.nodes[i];
    reveal_strlit("no_task_intent");
    reveal_strlit("无明确任务意图，跳过");
    reveal_strlit("「");
    reveal_strlit("」");
    reveal_strlit("无明确任务意图，跳过「");
    lemma_not_level_condition("no_task_intent"@);
    lemma_single_condition(n, "no_task_intent"@, tag, desc);
    let reason = quoted("无明确任务意图，跳过"@, n.name);
    assert(reason =~= "无明确任务意图，跳过「"@ + n.name + "」"@);
    if skip_reason(n, tag, desc) is None {
        lemma_kept_node_suggested(def.nodes, tag, desc, i);
        let s = suggested_of(def.nodes, tag, desc);
        let j = choose|j: int| 0 <= j < s.len() && #[trigger] s[j] == step_of(n);
        assert(s[j] == step_of(n));
    } else {
        lemma_dropped_node_skipped(def.nodes, tag, desc, i, reason);
        let s = skipped_of(def.nodes, tag, desc);
        let want = SkippedView { id: n.id, reason };
        let j = choose|j: int| 0 <= j < s.len() && #[trigger] s[j] == want;
        assert(s[j] == want);
    }
}

/// The condition "simple_greeting" needs the lower-cased description to
/// begin with a greeting: a node skipped only for greetings is suggested
/// whenever the description does not begin with one, and skipped with
/// "简单问候，跳过「name」" when it does and is under 20 bytes.
pub proof fn law_simple_greeting_needs_leading_greeting(
    def: DefinitionView,
    desc: Seq<char>,
    hint: Option<Seq<char>>,
    i: int,
)
    requires
        0 <= i < def.nodes.len(),
        only_condition(def.nodes[i], "simple_greeting"@),
    ensures
        (forall|k: int|
            0 <= k < greetings().len() ==> !has_prefix(lowercase_of(desc), #[trigger] greetings()[k]))
            ==> hint_result(def, desc, hint).suggested_steps.contains(step_of(def.nodes[i])),
        ((exists|k: int|
            0 <= k < greetings().len() && has_prefix(lowercase_of(desc), #[trigger] greetings()[k]))
            && (encode_utf8(lowercase_of(desc)).len() as usize) < 20) ==> hint_result(
            def,
            desc,
            hint,
        ).skipped_steps.contains(
            SkippedView {
                id: def.nodes[i].id,
                reason: "简单问候，跳过「"@ + def.nodes[i].name + "」"@,
            },
        ),
{
    let c = determined_complexity(def, desc, hint);
    let tag = complexity_tag(c);
    let n = def.nodes[i];
    reveal_strlit("simple_greeting");
    reveal_strlit("no_task_intent");
    reveal_strlit("简单问候，跳过");
    reveal_strlit("「");
    reveal_strlit("」");
    reveal_strlit("简单问候，跳过「");
    assert("simple_greeting"@[0] != "no_task_intent"@[0]);
    lemma_not_level_condition("simple_greeting"@);
    lemma_single_condition(n, "simple_greeting"@, tag, desc);
    let reason = quoted("简单问候，跳过"@, n.name);
    assert(reason =~= "简单问候，跳过「"@ + n.name + "」"@);
    if skip_reason(n, tag, desc) is None {
        lemma_kept_node_suggested(def.nodes, tag, desc, i);
        let s = suggested_of(def.nodes, tag, desc);
        let j = choose|j: int| 0 <= j < s.len() && #[trigger] s[j] == step_of(n);
        assert(s[j] == step_of(n));
    } else {
        lemma_dropped_node_skipped(def.nodes, tag, desc, i, reason);
        let s = skipped_of(def.nodes, tag, desc);
        let want = SkippedView { id: n.id, reason };
        let j = choose|j: int| 0 <= j < s.len() && #[trigger] s[j] == want;
        assert(s[j] == want);
    }
}

// ---------------------------------------------------------------------------
// The built-in rules
// ---------------------------------------------------------------------------

/// The built-in workflow's rules, level by level, as literal data.
pub proof fn law_default_rules_are_the_documented_ones()
    ensures
        default_definition().rules == seq![
            (
                "simple"@,
                RuleView {
                    max_files: Some(2u32),
                    nature: seq![
                        "register"@,
                        "config"@,
                        "single_edit"@,
                        "fix_typo"@,
                        "add_field"@,
                    ],
                },
            ),
            (
                "medium"@,
                RuleView {
                    max_files: Some(5u32),
                    nature: seq!["new_feature"@, "multi_file"@, "refactor"@, "bug_fix"@],
                },
            ),
            (
                "complex"@,
                RuleView {
                    max_files: None,
                    nature: seq![
                        "architecture"@,
                        "breaking_change"@,
                        "migration"@,
                        "redesign"@,
                    ],
                },
            ),
        ],
{
}

proof fn lemma_default_lookup()
    ensures
        lookup_rule(default_definition().rules, "complex"@) == Some(default_definition().rules[2].1),
        lookup_rule(default_definition().rules, "medium"@) == Some(default_definition().rules[1].1),
{
    reveal_strlit("simple");
    reveal_strlit("medium");
    reveal_strlit("complex");
    assert("simple"@[0] != "complex"@[0]);
    assert("medium"@[0] != "complex"@[0]);
    assert("simple"@[0] != "medium"@[0]);
    let r = default_definition().rules;
    assert(r[0].0 == "simple"@);
    assert(r[1].0 == "medium"@);
    assert(r[2].0 == "complex"@);
    let r1 = r.drop_first();
    let r2 = r1.drop_first();
    assert(r1[0] == r[1]);
    assert(r2[0] == r[2]);
    assert(lookup_rule(r2, "complex"@) == Some(r[2].1));
    assert(lookup_rule(r1, "complex"@) == Some(r[2].1));
    assert(lookup_rule(r1, "medium"@) == Some(r[1].1));
}

/// With the built-in workflow and no usable hint, a task whose lower-cased
/// description mentions architecture, breaking_change, migration or
/// redesign (each lower-cased) is complex.
pub proof fn law_default_complex_words(desc: Seq<char>, hint: Option<Seq<char>>, word: Seq<char>)
    requires
        hinted_complexity(hint) is None,
        word == "architecture"@ || word == "breaking_change"@ || word == "migration"@ || word
            == "redesign"@,
        has_substring(lowercase_of(desc), lowercase_of(word)),
    ensures
        determined_complexity(default_definition(), desc, hint) == Complexity::Complex,
        hint_result(default_definition(), desc, hint).complexity == "complex"@,
{
    lemma_default_lookup();
    let complex = default_definition().rules[2].1;
    let k: int = if word == "architecture"@ {
        0
    } else if word == "breaking_change"@ {
        1
    } else if word == "migration"@ {
        2
    } else {
        3
    };
    assert(complex.nature[k] == word);
    assert(mentions_keyword(complex, desc));
    law_complex_keyword_is_complex(default_definition(), desc, hint, complex);
}

/// With the built-in workflow and no usable hint, a task that mentions
/// new_feature, multi_file, refactor or bug_fix but none of the complex
/// words is medium.
pub proof fn law_default_medium_words(desc: Seq<char>, hint: Option<Seq<char>>, word: Seq<char>)
    requires
        hinted_complexity(hint) is None,
        word == "new_feature"@ || word == "multi_file"@ || word == "refactor"@ || word
            == "bug_fix"@,
        has_substring(lowercase_of(desc), lowercase_of(word)),
        !has_substring(lowercase_of(desc), lowercase_of("architecture"@)),
        !has_substring(lowercase_of(desc), lowercase_of("breaking_change"@)),
        !has_substring(lowercase_of(desc), lowercase_of("migration"@)),
        !has_substring(lowercase_of(desc), lowercase_of("redesign"@)),
    ensures
        determined_complexity(default_definition(), desc, hint) == Complexity::Medium,
        hint_result(default_definition(), desc, hint).complexity == "medium"@,
{
    lemma_default_lookup();
    let medium = default_definition().rules[1].1;
    let complex = default_definition().rules[2].1;
    let k: int = if word == "new_feature"@ {
        0
    } else if word == "multi_file"@ {
        1
    } else if word == "refactor"@ {
        2
    } else {
        3
    };
    assert(medium.nature[k] == word);
    assert(mentions_keyword(medium, desc));
    assert forall|r: RuleView|
        lookup_rule(default_definition().rules, "complex"@) == Some(r) implies !mentions_keyword(
        r,
        desc,
    ) by {
        assert(r == complex);
        if mentions_keyword(r, desc) {
            let j = choose|j: int|
                0 <= j < r.nature.len() && has_substring(
                    lowercase_of(desc),
                    lowercase_of(#[trigger] r.nature[j]),
                );
            assert(r.nature[j] == "architecture"@ || r.nature[j] == "breaking_change"@
                || r.nature[j] == "migration"@ || r.nature[j] == "redesign"@);
        }
    }
    law_medium_keyword_without_complex_keyword_is_medium(default_definition(), desc, hint, medium);
}

/// Keeps or skips node `i` according to its single condition's reason.
proof fn lemma_step_for_reason(
    def: DefinitionView,
    desc: Seq<char>,
    hint: Option<Seq<char>>,
    i: int,
    reason: Seq<char>,
)
    requires
        0 <= i < def.nodes.len(),
    ensures
        skip_reason(def.nodes[i], complexity_tag(determined_complexity(def, desc, hint)), desc)
            is None ==> hint_result(def, desc, hint).suggested_steps.contains(
            step_of(def.nodes[i]),
        ),
        skip_reason(def.nodes[i], complexity_tag(determined_complexity(def, desc, hint)), desc)
            == Some(reason) ==> hint_result(def, desc, hint).skipped_steps.contains(
            SkippedView { id: def.nodes[i].id, reason },
        ),
{
    let tag = complexity_tag(determined_complexity(def, desc, hint));
    let n = def.nodes[i];
    if skip_reason(n, tag, desc) is None {
        lemma_kept_node_suggested(def.nodes, tag, desc, i);
        let s = suggested_of(def.nodes, tag, desc);
        let j = choose|j: int| 0 <= j < s.len() && #[trigger] s[j] == step_of(n);
        assert(s[j] == step_of(n));
    }
    if skip_reason(n, tag, desc) == Some(reason) {
        lemma_dropped_node_skipped(def.nodes, tag, desc, i, reason);
        let s = skipped_of(def.nodes, tag, desc);
        let want = SkippedView { id: n.id, reason };
        let j = choose|j: int| 0 <= j < s.len() && #[trigger] s[j] == want;
        assert(s[j] == want);
    }
}

/// The condition "config_only" fires exactly when the lower-cased
/// description mentions a configuration word and neither 重构 nor 架构: the
/// node is then skipped with "仅配置变更，跳过「name」", and suggested
/// otherwise.
pub proof fn law_config_only_condition(
    def: DefinitionView,
    desc: Seq<char>,
    hint: Option<Seq<char>>,
    i: int,
)
    requires
        0 <= i < def.nodes.len(),
        only_condition(def.nodes[i], "config_only"@),
    ensures
        ((exists|k: int|
            0 <= k < config_keywords().len() && has_substring(
                lowercase_of(desc),
                #[trigger] config_keywords()[k],
            )) && !has_substring(lowercase_of(desc), "重构"@) && !has_substring(
            lowercase_of(desc),
            "架构"@,
        )) ==> hint_result(def, desc, hint).skipped_steps.contains(
            SkippedView {
                id: def.nodes[i].id,
                reason: "仅配置变更，跳过「"@ + def.nodes[i].name + "」"@,
            },
        ),
        (!(exists|k: int|
            0 <= k < config_keywords().len() && has_substring(
                lowercase_of(desc),
                #[trigger] config_keywords()[k],
            )) || has_substring(lowercase_of(desc), "重构"@) || has_substring(
            lowercase_of(desc),
            "架构"@,
        )) ==> hint_result(def, desc, hint).suggested_steps.contains(step_of(def.nodes[i])),
{
    let tag = complexity_tag(determined_complexity(def, desc, hint));
    let n = def.nodes[i];
    reveal_strlit("config_only");
    reveal_strlit("no_task_intent");
    reveal_strlit("simple_greeting");
    reveal_strlit("仅配置变更，跳过");
    reveal_strlit("「");
    reveal_strlit("」");
    reveal_strlit("仅配置变更，跳过「");
    assert("config_only"@[0] != "no_task_intent"@[0]);
    assert("config_only"@[0] != "simple_greeting"@[0]);
    reveal_strlit("complexity:");
    assert("config_only"@.subrange(0, 11)[2] != "complexity:"@[2]);
    assert(!has_prefix("config_only"@, "complexity:"@));
    lemma_single_condition(n, "config_only"@, tag, desc);
    let reason = quoted("仅配置变更，跳过"@, n.name);
    assert(reason =~= "仅配置变更，跳过「"@ + n.name + "」"@);
    lemma_step_for_reason(def, desc, hint, i, reason);
}

/// The condition "complexity:<level>" fires exactly at that level: the node
/// is skipped with "<level>任务可跳过「name」" when the task is assessed at
/// that level, and suggested at every other level.
pub proof fn law_level_condition(
    def: DefinitionView,
    desc: Seq<char>,
    hint: Option<Seq<char>>,
    i: int,
    level: Complexity,
)
    requires
        0 <= i < def.nodes.len(),
        only_condition(def.nodes[i], "complexity:"@ + level.label()),
    ensures
        determined_complexity(def, desc, hint) == level ==> hint_result(
            def,
            desc,
            hint,
        ).skipped_steps.contains(
            SkippedView {
                id: def.nodes[i].id,
                reason: level.label() + "任务可跳过「"@ + def.nodes[i].name + "」"@,
            },
        ),
        determined_complexity(def, desc, hint) != level ==> hint_result(
            def,
            desc,
            hint,
        ).suggested_steps.contains(step_of(def.nodes[i])),
{
    let c = determined_complexity(def, desc, hint);
    let tag = complexity_tag(c);
    let n = def.nodes[i];
    lemma_single_condition(n, complexity_tag(level), tag, desc);
    lemma_level_condition(c, level, lowercase_of(desc), n.name);
    reveal_strlit("任务可跳过");
    reveal_strlit("「");
    reveal_strlit("」");
    reveal_strlit("任务可跳过「");
    let reason = quoted(level.label() + "任务可跳过"@, n.name);
    assert(reason =~= level.label() + "任务可跳过「"@ + n.name + "」"@);
    lemma_step_for_reason(def, desc, hint, i, reason);
}

/// The reminder follows the assessed level: simple tasks ask for feedback
/// when done, medium ones for a confirmation after each step, complex ones
/// for a confirmed plan first.
pub proof fn law_reminder_follows_complexity(
    def: DefinitionView,
    desc: Seq<char>,
    hint: Option<Seq<char>>,
)
    ensures
        hint_result(def, desc, hint).complexity == "simple"@ ==> hint_result(def, desc, hint).reminder
            == "完成后请调用寸止(zhi)工具获取用户反馈"@,
        hint_result(def, desc, hint).complexity == "medium"@ ==> hint_result(def, desc, hint).reminder
            == "建议每步完成后调用寸止(zhi)确认，确保方向正确"@,
        hint_result(def, desc, hint).complexity == "complex"@ ==> hint_result(def, desc, hint).reminder
            == "请先确认方案再实施，每个关键节点调用寸止(zhi)确认"@,
{
    reveal_strlit("simple");
    reveal_strlit("medium");
    reveal_strlit("complex");
    assert("simple"@[0] != "medium"@[0]);
    assert("simple"@[0] != "complex"@[0]);
    assert("medium"@[0] != "complex"@[0]);
}

proof fn lemma_kept_nodes_in_order(nodes: Seq<NodeView>, tag: Seq<char>, desc: Seq<char>, i: int, j: int)
    requires
        0 <= i < j < nodes.len(),
        skip_reason(nodes[i], tag, desc) is None,
        skip_reason(nodes[j], tag, desc) is None,
    ensures
        exists|a: int, b: int|
            0 <= a < b < suggested_of(nodes, tag, desc).len() && #[trigger] suggested_of(
                nodes,
                tag,
                desc,
            )[a] == step_of(nodes[i]) && #[trigger] suggested_of(nodes, tag, desc)[b] == step_of(
                nodes[j],
            ),
    decreases nodes.len(),
{
    let rest = suggested_of(nodes.drop_last(), tag, desc);
    let s = suggested_of(nodes, tag, desc);
    assert(nodes.drop_last()[i] == nodes[i]);
    if j == nodes.len() - 1 {
        lemma_kept_node_suggested(nodes.drop_last(), tag, desc, i);
        let a = choose|a: int| 0 <= a < rest.len() && #[trigger] rest[a] == step_of(nodes[i]);
        assert(s[a] == step_of(nodes[i]));
        assert(s[rest.len() as int] == step_of(nodes[j]));
    } else {
        assert(nodes.drop_last()[j] == nodes[j]);
        lemma_kept_nodes_in_order(nodes.drop_last(), tag, desc, i, j);
        let (a, b) = choose|a: int, b: int|
            0 <= a < b < rest.len() && #[trigger] rest[a] == step_of(nodes[i]) && #[trigger] rest[b]
                == step_of(nodes[j]);
        assert(s[a] == rest[a]);
        assert(s[b] == rest[b]);
    }
}

/// Suggested steps keep the workflow's order: of two kept nodes, the
/// earlier one's step comes first.
pub proof fn law_suggested_steps_keep_workflow_order(
    def: DefinitionView,
    desc: Seq<char>,
    hint: Option<Seq<char>>,
    i: int,
    j: int,
)
    requires
        0 <= i < j < def.nodes.len(),
        def.nodes[i].required,
        def.nodes[j].required,
    ensures
        exists|a: int, b: int|
            0 <= a < b < hint_result(def, desc, hint).suggested_steps.len() && #[trigger] hint_result(
                def,
                desc,
                hint,
            ).suggested_steps[a] == step_of(def.nodes[i]) && #[trigger] hint_result(
                def,
                desc,
                hint,
            ).suggested_steps[b] == step_of(def.nodes[j]),
{
    let tag = complexity_tag(determined_complexity(def, desc, hint));
    lemma_kept_nodes_in_order(def.nodes, tag, desc, i, j);
    let s = suggested_of(def.nodes, tag, desc);
    let (a, b) = choose|a: int, b: int|
        0 <= a < b < s.len() && #[trigger] s[a] == step_of(def.nodes[i]) && #[trigger] s[b]
            == step_of(def.nodes[j]);
    assert(hint_result(def, desc, hint).suggested_steps[a] == step_of(def.nodes[i]));
    assert(hint_result(def, desc, hint).suggested_steps[b] == step_of(def.nodes[j]));
}

/// A hint that, lower-cased, is exactly a level's name decides the
/// complexity, whatever the workflow and the description.
pub proof fn law_hint_naming_a_level_decides(
    def: DefinitionView,
    desc: Seq<char>,
    hint: Seq<char>,
    level: Complexity,
)
    requires
        lowercase_of(hint) == level.label(),
    ensures
        determined_complexity(def, desc, Some(hint)) == level,
        hint_result(def, desc, Some(hint)).complexity == level.label(),
{
    reveal_strlit("simple");
    reveal_strlit("medium");
    reveal_strlit("complex");
    assert("simple"@[0] != "medium"@[0]);
    assert("simple"@[0] != "complex"@[0]);
    assert("medium"@[0] != "complex"@[0]);
}

/// The built-in workflow's nodes, in order, as literal data.
pub proof fn law_default_nodes_are_the_documented_ones()
    ensures
        default_definition().nodes == seq![
            NodeView {
                id: "memory_gate"@,
                name: "记忆搜索"@,
                required: false,
                skip_when: seq!["no_task_intent"@, "simple_greeting"@],
                action: "调用 smart_search 搜索相关记忆，命中则 memory_read"@,
            },
            NodeView {
                id: "read_context"@,
                name: "上下文读取"@,
                required: true,
                skip_when: Seq::<Seq<char>>::empty(),
                action: "读取相关代码文件，理解现有实现"@,
            },
            NodeView {
                id: "plan_design"@,
                name: "方案设计"@,
                required: false,
                skip_when: seq!["complexity:simple"@, "complexity:medium"@],
                action: "使用 sequential-thinking 分析方案（≤3步）"@,
            },
            NodeView {
                id: "execute"@,
                name: "代码实现"@,
                required: true,
                skip_when: Seq::<Seq<char>>::empty(),
                action: "执行代码修改，遵循项目代码规范"@,
            },
            NodeView {
                id: "verify"@,
                name: "验证"@,
                required: false,
                skip_when: seq!["complexity:simple"@, "config_only"@],
                action: "运行 lint/build/typecheck 验证变更"@,
            },
            NodeView {
                id: "gate"@,
                name: "确认(cunzhi)"@,
                required: true,
                skip_when: Seq::<Seq<char>>::empty(),
                action: "调用寸止(zhi)工具获取用户反馈，循环直到用户说\"结束\""@,
            },
        ],
{
    assert(default_definition().nodes =~= seq![
        NodeView {
            id: "memory_gate"@,
            name: "记忆搜索"@,
            required: false,
            skip_when: seq!["no_task_intent"@, "simple_greeting"@],
            action: "调用 smart_search 搜索相关记忆，命中则 memory_read"@,
        },
        NodeView {
            id: "read_context"@,
            name: "上下文读取"@,
            required: true,
            skip_when: Seq::<Seq<char>>::empty(),
            action: "读取相关代码文件，理解现有实现"@,
        },
        NodeView {
            id: "plan_design"@,
            name: "方案设计"@,
            required: false,
            skip_when: seq!["complexity:simple"@, "complexity:medium"@],
            action: "使用 sequential-thinking 分析方案（≤3步）"@,
        },
        NodeView {
            id: "execute"@,
            name: "代码实现"@,
            required: true,
            skip_when: Seq::<Seq<char>>::empty(),
            action: "执行代码修改，遵循项目代码规范"@,
        },
        NodeView {
            id: "verify"@,
            name: "验证"@,
            required: false,
            skip_when: seq!["complexity:simple"@, "config_only"@],
            action: "运行 lint/build/typecheck 验证变更"@,
        },
        NodeView {
            id: "gate"@,
            name: "确认(cunzhi)"@,
            required: true,
            skip_when: Seq::<Seq<char>>::empty(),
            action: "调用寸止(zhi)工具获取用户反馈，循环直到用户说\"结束\""@,
        },
    ]);
}

} // verus!
