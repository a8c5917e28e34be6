//! The workflow data model: nodes, complexity levels and rules, and the
//! shape of a hint, each with the mathematical value that contracts use.

use vstd::prelude::*;
use crate::text::{lowercase_of, ascii_lowercase, to_lowercase, str_eq};
use vstd::utf8::is_ascii_chars;

verus! {

/// One step of a workflow.
#[derive(Debug, Clone)]
pub struct WorkflowNode {
    /// Identifier, such as "memory_gate" or "read_context".
    pub id: String,
    /// Display name.
    pub name: String,
    /// A required node is never skipped.
    pub required: bool,
    /// Conditions under which the node may be skipped, such as
    /// "complexity:simple" or "no_task_intent".
    pub skip_when: Vec<String>,
    /// Advice on how to carry the step out.
    pub action: String,
}

/// The value of a [`WorkflowNode`].
pub struct NodeView {
    pub id: Seq<char>,
    pub name: Seq<char>,
    pub required: bool,
    pub skip_when: Seq<Seq<char>>,
    pub action: Seq<char>,
}

impl View for WorkflowNode {
    type V = NodeView;

    open spec fn view(&self) -> NodeView {
        NodeView {
            id: self.id@,
            name: self.name@,
            required: self.required,
            skip_when: self.skip_when.deep_view(),
            action: self.action@,
        }
    }
}

/// How demanding a task is.
#[derive(Debug, Clone, Copy, PartialEq, Eq, Hash, Structural)]
pub enum Complexity {
    /// One or two files, a single local change.
    Simple,
    /// Three or more files, business logic.
    Medium,
    /// Architectural or breaking change.
    Complex,
}

impl Complexity {
    /// The lower-case name of the level.
    pub open spec fn label(self) -> Seq<char> {
        match self {
            Complexity::Simple => "simple"@,
            Complexity::Medium => "medium"@,
            Complexity::Complex => "complex"@,
        }
    }

    /// The level whose name is exactly `s`, if any.
    pub open spec fn parse_label(s: Seq<char>) -> Option<Complexity> {
        if s == "simple"@ {
            Some(Complexity::Simple)
        } else if s == "medium"@ {
            Some(Complexity::Medium)
        } else if s == "complex"@ {
            Some(Complexity::Complex)
        } else {
            None
        }
    }

    /// The name of the level: "simple", "medium" or "complex".
    pub fn to_string(&self) -> (r: String)
        ensures
            r@ == self.label(),
    {
        match self {
            Complexity::Simple => String::from_str("simple"),
            Complexity::Medium => String::from_str("medium"),
            Complexity::Complex => String::from_str("complex"),
        }
    }

    /// Parses a level name, ignoring letter case.
    pub fn from_str_opt(s: &str) -> (r: Option<Self>)
        ensures
            r == Self::parse_label(lowercase_of(s@)),
            is_ascii_chars(s@) ==> r == Self::parse_label(ascii_lowercase(s@)),
    {
        let lower = to_lowercase(s);
        if str_eq(lower.as_str(), "simple") {
            Some(Complexity::Simple)
        } else if str_eq(lower.as_str(), "medium") {
            Some(Complexity::Medium)
        } else if str_eq(lower.as_str(), "complex") {
            Some(Complexity::Complex)
        } else {
            None
        }
    }
}

/// Rule that assigns a complexity level to a task.
#[derive(Debug, Clone)]
pub struct ComplexityRule {
    /// Largest number of files for the level, where it has one.
    pub max_files: Option<u32>,
    /// Keywords whose presence in a task description selects the level.
    pub nature: Vec<String>,
}

/// The value of a [`ComplexityRule`].
pub struct RuleView {
    pub max_files: Option<u32>,
    pub nature: Seq<Seq<char>>,
}

impl View for ComplexityRule {
    type V = RuleView;

    open spec fn view(&self) -> RuleView {
        RuleView { max_files: self.max_files, nature: self.nature.deep_view() }
    }
}

/// A workflow: ordered nodes and the complexity rules keyed by level name.
#[derive(Debug, Clone)]
pub struct WorkflowDefinition {
    /// The nodes, in the order they are carried out.
    pub nodes: Vec<WorkflowNode>,
    /// Level name and rule, one entry per level (see `levels_distinct`).
    pub complexity_rules: Vec<(String, ComplexityRule)>,
}

/// The value of a [`WorkflowDefinition`].
pub struct DefinitionView {
    pub nodes: Seq<NodeView>,
    pub rules: Seq<(Seq<char>, RuleView)>,
}

impl View for WorkflowDefinition {
    type V = DefinitionView;

    open spec fn view(&self) -> DefinitionView {
        DefinitionView {
            nodes: Seq::new(self.nodes@.len(), |i: int| self.nodes@[i]@),
            rules: Seq::new(
                self.complexity_rules@.len(),
                |i: int| (self.complexity_rules@[i].0@, self.complexity_rules@[i].1@),
            ),
        }
    }
}

impl DefinitionView {
    /// No level name has two rules: the rules form a map from level to rule.
    pub open spec fn levels_distinct(self) -> bool {
        forall|i: int, j: int|
            0 <= i < j < self.rules.len() ==> #[trigger] self.rules[i].0 != #[trigger] self.rules[j].0
    }
}

/// What a hint returns.
#[derive(Debug, Clone)]
pub struct WorkflowHintResult {
    /// Name of the assessed complexity level.
    pub complexity: String,
    /// Steps to carry out, in workflow order.
    pub suggested_steps: Vec<SuggestedStep>,
    /// Steps that may be left out, with the reason.
    pub skipped_steps: Vec<SkippedStep>,
    /// Reminder for the assistant.
    pub reminder: String,
}

/// A step that the hint suggests.
#[derive(Debug, Clone)]
pub struct SuggestedStep {
    pub id: String,
    pub name: String,
    pub action: String,
}

/// A step that the hint lets the assistant skip.
#[derive(Debug, Clone)]
pub struct SkippedStep {
    pub id: String,
    pub reason: String,
}

pub struct SuggestedView {
    pub id: Seq<char>,
    pub name: Seq<char>,
    pub action: Seq<char>,
}

pub struct SkippedView {
    pub id: Seq<char>,
    pub reason: Seq<char>,
}

pub struct HintView {
    pub complexity: Seq<char>,
    pub suggested_steps: Seq<SuggestedView>,
    pub skipped_steps: Seq<SkippedView>,
    pub reminder: Seq<char>,
}

impl View for SuggestedStep {
    type V = SuggestedView;

    open spec fn view(&self) -> SuggestedView {
        SuggestedView { id: self.id@, name: self.name@, action: self.action@ }
    }
}

impl View for SkippedStep {
    type V = SkippedView;

    open spec fn view(&self) -> SkippedView {
        SkippedView { id: self.id@, reason: self.reason@ }
    }
}

impl View for WorkflowHintResult {
    type V = HintView;

    open spec fn view(&self) -> HintView {
        HintView {
            complexity: self.complexity@,
            suggested_steps: Seq::new(
                self.suggested_steps@.len(),
                |i: int| self.suggested_steps@[i]@,
            ),
            skipped_steps: Seq::new(self.skipped_steps@.len(), |i: int| self.skipped_steps@[i]@),
            reminder: self.reminder@,
        }
    }
}

} // verus!
