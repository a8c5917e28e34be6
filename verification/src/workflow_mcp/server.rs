//! The workflow guidance server ("Xun"): its instructions, its tools and
//! what the hint tool answers.

use vstd::prelude::*;
use crate::text::str_eq;
use crate::workflow::definition::{DefinitionView, WorkflowDefinition, WorkflowHintResult};
use crate::workflow::engine::{evaluate_workflow, hint_result, opt_str_view};
use crate::workflow::loader::{generate_workflow_rules_text, rules_text};

verus! {

/// The server's state: the workflow in force and its rules text.
pub struct XunServer {
    workflow_def: WorkflowDefinition,
    rules_text: String,
}

/// The tools the server offers.
#[derive(Debug, PartialEq, Eq, Structural)]
pub enum XunTool {
    /// Workflow advice for a task.
    Hint,
    /// Self-check of the completed steps.
    Check,
}

/// The instructions given to an assistant that connects, around the
/// workflow's rules text.
pub open spec fn instructions_text(rules: Seq<char>) -> Seq<char> {
    "工作流引导工具。任务开始时调用 hint 获取工作流建议，按建议执行，完成后调用寸止(zhi)确认。\n\n# 工作流规则\n\n## 执行节点\n\n"@
        + rules + "\n\n## 自检\n\n任务完成前可调用 check 工具自检是否遗漏步骤。"@
}

impl XunServer {
    /// The workflow the server evaluates against.
    pub closed spec fn definition(&self) -> DefinitionView {
        self.workflow_def@
    }

    /// The cached rules text.
    pub closed spec fn rules(&self) -> Seq<char> {
        self.rules_text@
    }

    /// A server for the given workflow, with its rules text prepared.
    pub fn new(workflow_def: WorkflowDefinition) -> (r: Self)
        ensures
            r.definition() == workflow_def@,
            r.rules() == rules_text(workflow_def@),
    {
        let rules_text = generate_workflow_rules_text(&workflow_def);
        XunServer { workflow_def, rules_text }
    }

    /// The instructions of the server, which embed the rules text.
    pub fn instructions(&self) -> (r: String)
        ensures
            r@ == instructions_text(self.rules()),
    {
        let mut r = String::from_str(
            "工作流引导工具。任务开始时调用 hint 获取工作流建议，按建议执行，完成后调用寸止(zhi)确认。\n\n# 工作流规则\n\n## 执行节点\n\n",
        );
        r.append(self.rules_text.as_str());
        r.append("\n\n## 自检\n\n任务完成前可调用 check 工具自检是否遗漏步骤。");
        r
    }

    /// The hint tool: the workflow evaluated for the task.
    pub fn hint(&self, task_description: &str, complexity: Option<&str>) -> (r: WorkflowHintResult)
        ensures
            r@ == hint_result(self.definition(), task_description@, opt_str_view(complexity)),
    {
        evaluate_workflow(&self.workflow_def, task_description, complexity)
    }

    /// The tool a call names, if the server has it.
    pub fn tool_named(name: &str) -> (r: Option<XunTool>)
        ensures
            r == (if name@ == "hint"@ {
                Some(XunTool::Hint)
            } else if name@ == "check"@ {
                Some(XunTool::Check)
            } else {
                None
            }),
    {
        if str_eq(name, "hint") {
            Some(XunTool::Hint)
        } else if str_eq(name, "check") {
            Some(XunTool::Check)
        } else {
            None
        }
    }

    /// The error text for a call of a tool the server does not have.
    pub fn unknown_tool_message(name: &str) -> (r: String)
        ensures
            r@ == "未知的工具: "@ + name@,
    {
        let mut r = String::from_str("未知的工具: ");
        r.append(name);
        r
    }
}

} // verus!
