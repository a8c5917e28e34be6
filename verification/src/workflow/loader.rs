//! Choosing between a user's custom workflow and the built-in one, and the
//! text that describes a workflow's rules.
//!
//! Reading `~/.cunzhi/workflow.yaml` and parsing it is the caller's part; the
//! library receives what came of it as a [`CustomWorkflowFile`].

use vstd::prelude::*;
use crate::text::{decimal, decimal_of, has_substring, join, joined};
use super::definition::{DefinitionView, NodeView, RuleView, WorkflowDefinition};
use super::default::{default_definition, default_workflow};

verus! {

/// What came of looking for the custom workflow file.
pub enum CustomWorkflowFile {
    /// There is no such file.
    Absent,
    /// The file exists but could not be read; the text says why.
    Unreadable(String),
    /// The file was read but is not a valid workflow document.
    Malformed(String),
    /// The file parsed into this definition.
    Parsed(WorkflowDefinition),
}

/// Why a custom workflow was not used.
#[derive(Debug)]
pub enum WorkflowLoadError {
    ReadFailed(String),
    ParseFailed(String),
    /// The custom workflow has no nodes.
    NoNodes,
}

/// The outcome of trying the custom workflow: `Ok(None)` when there is no
/// file, the definition when it parsed and has at least one node, and the
/// reason otherwise.
pub open spec fn custom_workflow_outcome(file: CustomWorkflowFile) -> Result<
    Option<WorkflowDefinition>,
    WorkflowLoadError,
> {
    match file {
        CustomWorkflowFile::Absent => Ok(None),
        CustomWorkflowFile::Unreadable(e) => Err(WorkflowLoadError::ReadFailed(e)),
        CustomWorkflowFile::Malformed(e) => Err(WorkflowLoadError::ParseFailed(e)),
        CustomWorkflowFile::Parsed(d) => if d.nodes@.len() == 0 {
            Err(WorkflowLoadError::NoNodes)
        } else {
            Ok(Some(d))
        },
    }
}

/// Checks a custom workflow file: a definition with no nodes is refused.
pub fn try_load_custom_workflow(file: CustomWorkflowFile) -> (r: Result<
    Option<WorkflowDefinition>,
    WorkflowLoadError,
>)
    ensures
        r == custom_workflow_outcome(file),
{
    match file {
        CustomWorkflowFile::Absent => Ok(None),
        CustomWorkflowFile::Unreadable(e) => Err(WorkflowLoadError::ReadFailed(e)),
        CustomWorkflowFile::Malformed(e) => Err(WorkflowLoadError::ParseFailed(e)),
        CustomWorkflowFile::Parsed(d) => {
            if d.nodes.len() == 0 {
                Err(WorkflowLoadError::NoNodes)
            } else {
                Ok(Some(d))
            }
        },
    }
}

/// The workflow in force: the custom one when it is usable, the built-in
/// one in every other case.
pub fn load_workflow_definition(file: CustomWorkflowFile) -> (r: WorkflowDefinition)
    ensures
        match custom_workflow_outcome(file) {
            Ok(Some(d)) => r == d,
            _ => r@ == default_definition(),
        },
        r@.nodes.len() > 0,
{
    match try_load_custom_workflow(file) {
        Ok(Some(d)) => d,
        _ => default_workflow(),
    }
}

/// `", "`-separated list.
pub open spec fn comma_list(items: Seq<Seq<char>>) -> Seq<char> {
    joined(items, ", "@)
}

/// The lines that describe one node.
pub open spec fn node_text(n: NodeView) -> Seq<char> {
    "- **"@ + n.name + "**"@ + (if n.required {
        " [必需]"@
    } else {
        ""@
    }) + ": "@ + n.action + "\n"@ + (if n.skip_when.len() > 0 {
        "  跳过条件: "@ + comma_list(n.skip_when) + "\n"@
    } else {
        Seq::empty()
    })
}

pub open spec fn nodes_text(nodes: Seq<NodeView>) -> Seq<char>
    decreases nodes.len(),
{
    if nodes.len() == 0 {
        Seq::empty()
    } else {
        nodes_text(nodes.drop_last()) + node_text(nodes.last())
    }
}

/// The lines that describe the rule of one level.
pub open spec fn level_text(level: Seq<char>, rule: RuleView) -> Seq<char> {
    "### "@ + level + "\n"@ + (match rule.max_files {
        Some(m) => "- 最大文件数: "@ + decimal_of(m as nat) + "\n"@,
        None => Seq::empty(),
    }) + (if rule.nature.len() > 0 {
        "- 触发关键词: "@ + comma_list(rule.nature) + "\n"@
    } else {
        Seq::empty()
    }) + "\n"@
}

pub open spec fn levels_text(rules: Seq<(Seq<char>, RuleView)>) -> Seq<char>
    decreases rules.len(),
{
    if rules.len() == 0 {
        Seq::empty()
    } else {
        levels_text(rules.drop_last()) + level_text(rules.last().0, rules.last().1)
    }
}

/// The fixed closing section on how the assistant must use the workflow.
pub open spec fn core_requirements_text() -> Seq<char> {
    "## 核心要求\n\n"@ + "1. 任务开始时调用 `hint` 工具获取工作流建议\n"@
        + "2. 按建议的步骤执行（可根据实际情况灵活调整）\n"@
        + "3. 完成后**必须**调用寸止(zhi)工具获取用户反馈\n"@
        + "4. 未收到\"结束\"指令前，保持循环交互\n"@
}

/// The whole rules text of a workflow.
pub open spec fn rules_text(d: DefinitionView) -> Seq<char> {
    "# 工作流规则\n\n"@ + "## 执行节点\n\n"@ + nodes_text(d.nodes) + "\n## 复杂度规则\n\n"@
        + levels_text(d.rules) + core_requirements_text()
}

/// The lines for one node.
fn node_lines(node: &super::definition::WorkflowNode) -> (r: String)
    ensures
        r@ == node_text(node@),
{
    let mut text = String::from_str("- **");
    text.append(node.name.as_str());
    text.append("**");
    if node.required {
        text.append(" [必需]");
    } else {
        text.append("");
    }
    text.append(": ");
    text.append(node.action.as_str());
    text.append("\n");
    if node.skip_when.len() > 0 {
        let mut extra = String::from_str("  跳过条件: ");
        let list = join(&node.skip_when, ", ");
        extra.append(list.as_str());
        extra.append("\n");
        text.append(extra.as_str());
    }
    assert(text@ =~= node_text(node@));
    text
}

/// The lines for the rule of one level.
fn level_lines(level: &String, rule: &super::definition::ComplexityRule) -> (r: String)
    ensures
        r@ == level_text(level@, rule@),
{
    let mut text = String::from_str("### ");
    text.append(level.as_str());
    text.append("\n");
    let mut files = String::new();
    if let Some(max) = rule.max_files {
        files.append("- 最大文件数: ");
        let digits = decimal(max as u64);
        files.append(digits.as_str());
        files.append("\n");
    }
    let mut words = String::new();
    if rule.nature.len() > 0 {
        words.append("- 触发关键词: ");
        let list = join(&rule.nature, ", ");
        words.append(list.as_str());
        words.append("\n");
    }
    text.append(files.as_str());
    text.append(words.as_str());
    text.append("\n");
    assert(text@ =~= level_text(level@, rule@));
    text
}

/// Markdown description of a workflow: each node with its requirement tag,
/// action and skip conditions, each level's rule, and the core requirements.
pub fn generate_workflow_rules_text(definition: &WorkflowDefinition) -> (r: String)
    ensures
        r@ == rules_text(definition@),
{
    let ghost dv = definition@;
    let mut text = String::from_str("# 工作流规则\n\n");
    text.append("## 执行节点\n\n");
    let ghost head = text@;
    let n = definition.nodes.len();
    let mut i: usize = 0;
    while i < n
        invariant
            n == dv.nodes.len(),
            dv == definition@,
            i <= n,
            text@ == head + nodes_text(dv.nodes.take(i as int)),
        decreases n - i,
    {
        let lines = node_lines(&definition.nodes[i]);
        text.append(lines.as_str());
        proof {
            assert(dv.nodes.take(i + 1).drop_last() =~= dv.nodes.take(i as int));
            assert(dv.nodes.take(i + 1).last() == definition.nodes@[i as int]@);
            assert(text@ =~= head + nodes_text(dv.nodes.take(i + 1)));
        }
        i = i + 1;
    }
    assert(dv.nodes.take(n as int) =~= dv.nodes);
    text.append("\n## 复杂度规则\n\n");
    let ghost mid = text@;
    let m = definition.complexity_rules.len();
    let mut k: usize = 0;
    while k < m
        invariant
            m == dv.rules.len(),
            dv == definition@,
            k <= m,
            text@ == mid + levels_text(dv.rules.take(k as int)),
        decreases m - k,
    {
        let entry = &definition.complexity_rules[k];
        let lines = level_lines(&entry.0, &entry.1);
        text.append(lines.as_str());
        proof {
            assert(dv.rules.take(k + 1).drop_last() =~= dv.rules.take(k as int));
            assert(dv.rules.take(k + 1).last() == (entry.0@, entry.1@));
            assert(text@ =~= mid + levels_text(dv.rules.take(k + 1)));
        }
        k = k + 1;
    }
    assert(dv.rules.take(m as int) =~= dv.rules);
    let ghost tail_start = text@;
    text.append("## 核心要求\n\n");
    text.append("1. 任务开始时调用 `hint` 工具获取工作流建议\n");
    text.append("2. 按建议的步骤执行（可根据实际情况灵活调整）\n");
    text.append("3. 完成后**必须**调用寸止(zhi)工具获取用户反馈\n");
    text.append("4. 未收到\"结束\"指令前，保持循环交互\n");
    assert(text@ =~= tail_start + core_requirements_text());
    assert(text@ =~= rules_text(dv));
    text
}

proof fn lemma_levels_text_holds_level(rules: Seq<(Seq<char>, RuleView)>, i: int, j: int) -> (x: Seq<
    char,
>)
    requires
        0 <= i < j <= rules.len(),
    ensures
        levels_text(rules.take(j)) == levels_text(rules.take(i)) + level_text(rules[i].0, rules[i].1)
            + x,
    decreases j,
{
    let t = rules.take(j);
    assert(t.drop_last() =~= rules.take(j - 1));
    assert(t.last() == rules[j - 1]);
    if j == i + 1 {
        let x = Seq::<char>::empty();
        assert(levels_text(t) =~= levels_text(rules.take(i)) + level_text(rules[i].0, rules[i].1)
            + x);
        x
    } else {
        let x0 = lemma_levels_text_holds_level(rules, i, j - 1);
        let x = x0 + level_text(rules[j - 1].0, rules[j - 1].1);
        assert(levels_text(t) =~= levels_text(rules.take(i)) + level_text(rules[i].0, rules[i].1)
            + x);
        x
    }
}

/// Every level whose rule has keywords is described by its heading, then
/// its max-files line where it has one, then "- 触发关键词: " and the
/// keywords joined by ", ": whether or not the rule has a file limit.
pub proof fn law_rules_text_lists_every_levels_keywords(def: DefinitionView, i: int)
    requires
        0 <= i < def.rules.len(),
        def.rules[i].1.nature.len() > 0,
    ensures
        has_substring(
            rules_text(def),
            "### "@ + def.rules[i].0 + "\n"@ + (match def.rules[i].1.max_files {
                Some(m) => "- 最大文件数: "@ + decimal_of(m as nat) + "\n"@,
                None => Seq::empty(),
            }) + "- 触发关键词: "@ + joined(def.rules[i].1.nature, ", "@) + "\n"@,
        ),
{
    let rules = def.rules;
    let level = rules[i].0;
    let rule = rules[i].1;
    let block = "### "@ + level + "\n"@ + (match rule.max_files {
        Some(m) => "- 最大文件数: "@ + decimal_of(m as nat) + "\n"@,
        None => Seq::empty(),
    }) + "- 触发关键词: "@ + joined(rule.nature, ", "@) + "\n"@;
    assert(level_text(level, rule) =~= block + "\n"@);
    let x = lemma_levels_text_holds_level(rules, i, rules.len() as int);
    assert(rules.take(rules.len() as int) =~= rules);
    let head = "# 工作流规则\n\n"@ + "## 执行节点\n\n"@ + nodes_text(def.nodes)
        + "\n## 复杂度规则\n\n"@;
    let before = head + levels_text(rules.take(i));
    let whole = rules_text(def);
    assert(whole =~= before + block + ("\n"@ + x + core_requirements_text()));
    let p = before.len() as int;
    assert(whole.subrange(p, p + block.len()) =~= block);
}

proof fn lemma_nodes_text_holds_node(nodes: Seq<NodeView>, i: int, j: int) -> (x: Seq<char>)
    requires
        0 <= i < j <= nodes.len(),
    ensures
        nodes_text(nodes.take(j)) == nodes_text(nodes.take(i)) + node_text(nodes[i]) + x,
    decreases j,
{
    let t = nodes.take(j);
    assert(t.drop_last() =~= nodes.take(j - 1));
    assert(t.last() == nodes[j - 1]);
    if j == i + 1 {
        let x = Seq::<char>::empty();
        assert(nodes_text(t) =~= nodes_text(nodes.take(i)) + node_text(nodes[i]) + x);
        x
    } else {
        let x0 = lemma_nodes_text_holds_node(nodes, i, j - 1);
        let x = x0 + node_text(nodes[j - 1]);
        assert(nodes_text(t) =~= nodes_text(nodes.take(i)) + node_text(nodes[i]) + x);
        x
    }
}

/// Every node is described by a line "- **name**: action", with " [必需]"
/// after the name of a required node, followed where it has skip conditions
/// by "  跳过条件: " and the conditions joined by ", ".
pub proof fn law_rules_text_describes_every_node(def: DefinitionView, i: int)
    requires
        0 <= i < def.nodes.len(),
    ensures
        has_substring(
            rules_text(def),
            "- **"@ + def.nodes[i].name + "**"@ + (if def.nodes[i].required {
                " [必需]"@
            } else {
                Seq::empty()
            }) + ": "@ + def.nodes[i].action + "\n"@ + (if def.nodes[i].skip_when.len() > 0 {
                "  跳过条件: "@ + joined(def.nodes[i].skip_when, ", "@) + "\n"@
            } else {
                Seq::empty()
            }),
        ),
{
    let nodes = def.nodes;
    let n = nodes[i];
    reveal_strlit("");
    let line = "- **"@ + n.name + "**"@ + (if n.required {
        " [必需]"@
    } else {
        Seq::empty()
    }) + ": "@ + n.action + "\n"@ + (if n.skip_when.len() > 0 {
        "  跳过条件: "@ + joined(n.skip_when, ", "@) + "\n"@
    } else {
        Seq::empty()
    });
    assert(node_text(n) =~= line);
    let x = lemma_nodes_text_holds_node(nodes, i, nodes.len() as int);
    assert(nodes.take(nodes.len() as int) =~= nodes);
    let head = "# 工作流规则\n\n"@ + "## 执行节点\n\n"@;
    let before = head + nodes_text(nodes.take(i));
    let whole = rules_text(def);
    assert(whole =~= before + line + (x + "\n## 复杂度规则\n\n"@ + levels_text(def.rules)
        + core_requirements_text()));
    let p = before.len() as int;
    assert(whole.subrange(p, p + line.len()) =~= line);
}

/// A custom workflow is used exactly when its file parsed into a
/// definition with at least one node; a missing file means no custom
/// workflow, and every other outcome is an error.
pub proof fn law_custom_workflow_used_only_when_usable(file: CustomWorkflowFile)
    ensures
        file matches CustomWorkflowFile::Parsed(d) ==> (d.nodes@.len() > 0
            ==> custom_workflow_outcome(file) == Ok::<Option<WorkflowDefinition>, WorkflowLoadError>(
            Some(d),
        )),
        file matches CustomWorkflowFile::Parsed(d) ==> (d.nodes@.len() == 0
            ==> custom_workflow_outcome(file) is Err),
        file is Absent ==> custom_workflow_outcome(file) == Ok::<
            Option<WorkflowDefinition>,
            WorkflowLoadError,
        >(None),
        file is Unreadable ==> custom_workflow_outcome(file) is Err,
        file is Malformed ==> custom_workflow_outcome(file) is Err,
{
}

} // verus!
