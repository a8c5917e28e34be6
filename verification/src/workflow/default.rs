//! The built-in workflow, used when no custom definition is available.

use vstd::prelude::*;
use super::definition::{
    ComplexityRule, DefinitionView, NodeView, RuleView, WorkflowDefinition, WorkflowNode,
};

verus! {

/// The nodes of the built-in workflow.
pub open spec fn default_nodes() -> Seq<NodeView> {
    seq![
        NodeView {
            id: "memory_gate"@,
            name: "记忆搜索"@,
            required: false,
            skip_when: seq!["no_task_intent"@, "simple_greeting"@],
            action: "调用 smart_search 搜索相关记忆，命中则 memory_read"@,
        },
        NodeView {
            id: "read_context"@,
            name: "上下文读取"@,
            required: true,
            skip_when: seq![],
            action: "读取相关代码文件，理解现有实现"@,
        },
        NodeView {
            id: "plan_design"@,
            name: "方案设计"@,
            required: false,
            skip_when: seq!["complexity:simple"@, "complexity:medium"@],
            action: "使用 sequential-thinking 分析方案（≤3步）"@,
        },
        NodeView {
            id: "execute"@,
            name: "代码实现"@,
            required: true,
            skip_when: seq![],
            action: "执行代码修改，遵循项目代码规范"@,
        },
        NodeView {
            id: "verify"@,
            name: "验证"@,
            required: false,
            skip_when: seq!["complexity:simple"@, "config_only"@],
            action: "运行 lint/build/typecheck 验证变更"@,
        },
        NodeView {
            id: "gate"@,
            name: "确认(cunzhi)"@,
            required: true,
            skip_when: seq![],
            action: "调用寸止(zhi)工具获取用户反馈，循环直到用户说\"结束\""@,
        },
    ]
}

/// The complexity rules of the built-in workflow.
pub open spec fn default_rules() -> Seq<(Seq<char>, RuleView)> {
    seq![
        (
            "simple"@,
            RuleView {
                max_files: Some(2u32),
                nature: seq![
                    "register"@,
                    "config"@,
                    "single_edit"@,
                    "fix_typo"@,
                    "add_field"@,
                ],
            },
        ),
        (
            "medium"@,
            RuleView {
                max_files: Some(5u32),
                nature: seq!["new_feature"@, "multi_file"@, "refactor"@, "bug_fix"@],
            },
        ),
        (
            "complex"@,
            RuleView {
                max_files: None,
                nature: seq!["architecture"@, "breaking_change"@, "migration"@, "redesign"@],
            },
        ),
    ]
}

pub open spec fn default_definition() -> DefinitionView {
    DefinitionView { nodes: default_nodes(), rules: default_rules() }
}

/// Owned copies of the words, in order.
fn owned_words(words: &Vec<&str>) -> (r: Vec<String>)
    ensures
        r.deep_view() == words.deep_view(),
{
    let mut r: Vec<String> = Vec::new();
    let mut i: usize = 0;
    while i < words.len()
        invariant
            i <= words@.len(),
            r@.len() == i,
            forall|k: int| 0 <= k < i ==> #[trigger] r@[k]@ == words@[k]@,
        decreases words@.len() - i,
    {
        r.push(String::from_str(words[i]));
        i = i + 1;
    }
    assert(r.deep_view() =~= words.deep_view());
    r
}

fn make_node(id: &str, name: &str, required: bool, skip: &Vec<&str>, action: &str) -> (r:
    WorkflowNode)
    ensures
        r@ == (NodeView {
            id: id@,
            name: name@,
            required,
            skip_when: skip.deep_view(),
            action: action@,
        }),
{
    WorkflowNode {
        id: String::from_str(id),
        name: String::from_str(name),
        required,
        skip_when: owned_words(skip),
        action: String::from_str(action),
    }
}

fn make_rule(max_files: Option<u32>, nature: &Vec<&str>) -> (r: ComplexityRule)
    ensures
        r@ == (RuleView { max_files, nature: nature.deep_view() }),
{
    ComplexityRule { max_files, nature: owned_words(nature) }
}

/// The built-in workflow: six nodes from memory search to the closing
/// confirmation, and keyword rules for the three complexity levels.
pub fn default_workflow() -> (r: WorkflowDefinition)
    ensures
        r@ == default_definition(),
        r@.levels_distinct(),
{
    let none: Vec<&str> = Vec::new();
    let w0 = vec!["no_task_intent", "simple_greeting"];
    let w2 = vec!["complexity:simple", "complexity:medium"];
    let w4 = vec!["complexity:simple", "config_only"];
    let n0 = make_node(
        "memory_gate",
        "记忆搜索",
        false,
        &w0,
        "调用 smart_search 搜索相关记忆，命中则 memory_read",
    );
    let n1 = make_node("read_context", "上下文读取", true, &none, "读取相关代码文件，理解现有实现");
    let n2 = make_node(
        "plan_design",
        "方案设计",
        false,
        &w2,
        "使用 sequential-thinking 分析方案（≤3步）",
    );
    let n3 = make_node("execute", "代码实现", true, &none, "执行代码修改，遵循项目代码规范");
    let n4 = make_node("verify", "验证", false, &w4, "运行 lint/build/typecheck 验证变更");
    let n5 = make_node(
        "gate",
        "确认(cunzhi)",
        true,
        &none,
        "调用寸止(zhi)工具获取用户反馈，循环直到用户说\"结束\"",
    );
    let simple_words = vec!["register", "config", "single_edit", "fix_typo", "add_field"];
    let medium_words = vec!["new_feature", "multi_file", "refactor", "bug_fix"];
    let complex_words = vec!["architecture", "breaking_change", "migration", "redesign"];
    let r_simple = make_rule(Some(2), &simple_words);
    let r_medium = make_rule(Some(5), &medium_words);
    let r_complex = make_rule(None, &complex_words);
    let nodes = vec![n0, n1, n2, n3, n4, n5];
    let complexity_rules = vec![
        (String::from_str("simple"), r_simple),
        (String::from_str("medium"), r_medium),
        (String::from_str("complex"), r_complex),
    ];
    let r = WorkflowDefinition { nodes, complexity_rules };
    proof {
        assert(none.deep_view() =~= Seq::<Seq<char>>::empty());
        assert(w0.deep_view() =~= seq!["no_task_intent"@, "simple_greeting"@]);
        assert(w2.deep_view() =~= seq!["complexity:simple"@, "complexity:medium"@]);
        assert(w4.deep_view() =~= seq!["complexity:simple"@, "config_only"@]);
        assert(simple_words.deep_view() =~= seq![
            "register"@,
            "config"@,
            "single_edit"@,
            "fix_typo"@,
            "add_field"@,
        ]);
        assert(medium_words.deep_view() =~= seq![
            "new_feature"@,
            "multi_file"@,
            "refactor"@,
            "bug_fix"@,
        ]);
        assert(complex_words.deep_view() =~= seq![
            "architecture"@,
            "breaking_change"@,
            "migration"@,
            "redesign"@,
        ]);
        assert(r@.nodes =~= default_nodes());
        assert(r@.rules =~= default_rules());
        reveal_strlit("simple");
        reveal_strlit("medium");
        reveal_strlit("complex");
        assert("simple"@[0] != "medium"@[0]);
        assert("simple"@[0] != "complex"@[0]);
        assert("medium"@[0] != "complex"@[0]);
    }
    r
}

} // verus!
