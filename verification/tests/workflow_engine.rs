use cunzhi::workflow::default::default_workflow;
use cunzhi::workflow::definition::{Complexity, ComplexityRule, WorkflowDefinition, WorkflowNode};
use cunzhi::workflow::engine::evaluate_workflow;

fn node(id: &str, name: &str, required: bool, skip: &[&str]) -> WorkflowNode {
    WorkflowNode {
        id: id.to_string(),
        name: name.to_string(),
        required,
        skip_when: skip.iter().map(|s| s.to_string()).collect(),
        action: format!("do {}", id),
    }
}

#[test]
fn test_simple_task() {
    let def = default_workflow();
    let result = evaluate_workflow(&def, "修改按钮颜色", None);
    assert_eq!(result.complexity, "simple");
    assert!(result.skipped_steps.iter().any(|s| s.id == "plan_design"));
}

#[test]
fn test_complex_task() {
    let def = default_workflow();
    let result = evaluate_workflow(&def, "重构整体 architecture 架构", None);
    assert_eq!(result.complexity, "complex");
    assert!(!result.skipped_steps.iter().any(|s| s.id == "plan_design"));
}

#[test]
fn test_hint_override() {
    let def = default_workflow();
    let result = evaluate_workflow(&def, "简单修改", Some("complex"));
    assert_eq!(result.complexity, "complex");
}

#[test]
fn test_gate_always_included() {
    let def = default_workflow();
    let result = evaluate_workflow(&def, "随便什么任务", None);
    assert!(result.suggested_steps.iter().any(|s| s.id == "gate"));
}

#[test]
fn simple_task_skips_with_exact_reasons() {
    let def = default_workflow();
    let result = evaluate_workflow(&def, "修改按钮颜色", None);
    let skipped: Vec<(String, String)> =
        result.skipped_steps.iter().map(|s| (s.id.clone(), s.reason.clone())).collect();
    assert_eq!(
        skipped,
        vec![
            ("plan_design".to_string(), "simple任务可跳过「方案设计」".to_string()),
            ("verify".to_string(), "simple任务可跳过「验证」".to_string()),
        ]
    );
    let suggested: Vec<String> = result.suggested_steps.iter().map(|s| s.id.clone()).collect();
    assert_eq!(suggested, vec!["memory_gate", "read_context", "execute", "gate"]);
    assert_eq!(result.reminder, "完成后请调用寸止(zhi)工具获取用户反馈");
}

#[test]
fn medium_keyword_and_reminder() {
    let def = default_workflow();
    let result = evaluate_workflow(&def, "Refactor the parser", None);
    assert_eq!(result.complexity, "medium");
    assert_eq!(result.reminder, "建议每步完成后调用寸止(zhi)确认，确保方向正确");
    let skipped: Vec<String> = result.skipped_steps.iter().map(|s| s.id.clone()).collect();
    assert_eq!(skipped, vec!["plan_design"]);
}

#[test]
fn complex_keyword_beats_medium_keyword() {
    let def = default_workflow();
    let result = evaluate_workflow(&def, "refactor for a MIGRATION", None);
    assert_eq!(result.complexity, "complex");
    assert_eq!(result.reminder, "请先确认方案再实施，每个关键节点调用寸止(zhi)确认");
    assert_eq!(result.skipped_steps.len(), 0);
    assert_eq!(result.suggested_steps.len(), 6);
}

#[test]
fn unusable_hint_falls_back_to_keywords() {
    let def = default_workflow();
    let result = evaluate_workflow(&def, "redesign the api", Some("huge"));
    assert_eq!(result.complexity, "complex");
    let upper = evaluate_workflow(&def, "redesign the api", Some("SIMPLE"));
    assert_eq!(upper.complexity, "simple");
}

#[test]
fn greeting_without_task_skips_memory_gate() {
    let def = default_workflow();
    let result = evaluate_workflow(&def, "hello there", None);
    let first = &result.skipped_steps[0];
    assert_eq!(first.id, "memory_gate");
    assert_eq!(first.reason, "无明确任务意图，跳过「记忆搜索」");
}

#[test]
fn greeting_reason_when_task_word_present() {
    let def = WorkflowDefinition {
        nodes: vec![node("g", "问候", false, &["simple_greeting"])],
        complexity_rules: vec![],
    };
    let short = evaluate_workflow(&def, "Hi, fix it", None);
    assert_eq!(short.skipped_steps.len(), 1);
    assert_eq!(short.skipped_steps[0].reason, "简单问候，跳过「问候」");
    // twenty bytes or more is no greeting
    let long = evaluate_workflow(&def, "hi there, this is a long message", None);
    assert_eq!(long.skipped_steps.len(), 0);
    // byte length counts: six Chinese characters are eighteen bytes
    let chinese = evaluate_workflow(&def, "你好你好你好", None);
    assert_eq!(chinese.skipped_steps.len(), 1);
    let chinese_long = evaluate_workflow(&def, "你好你好你好你", None);
    assert_eq!(chinese_long.skipped_steps.len(), 0);
}

#[test]
fn config_only_skips_verify_unless_refactoring() {
    let def = WorkflowDefinition {
        nodes: vec![node("verify", "验证", false, &["config_only"])],
        complexity_rules: vec![],
    };
    let cfg = evaluate_workflow(&def, "update .env values", None);
    assert_eq!(cfg.skipped_steps.len(), 1);
    assert_eq!(cfg.skipped_steps[0].reason, "仅配置变更，跳过「验证」");
    let refactor = evaluate_workflow(&def, "配置 重构", None);
    assert_eq!(refactor.skipped_steps.len(), 0);
}

#[test]
fn required_node_kept_despite_conditions() {
    let def = WorkflowDefinition {
        nodes: vec![node("must", "必做", true, &["complexity:simple", "no_task_intent"])],
        complexity_rules: vec![],
    };
    let result = evaluate_workflow(&def, "nothing", None);
    assert_eq!(result.suggested_steps.len(), 1);
    assert_eq!(result.suggested_steps[0].id, "must");
    assert_eq!(result.suggested_steps[0].action, "do must");
}

#[test]
fn custom_rules_and_case_insensitive_keywords() {
    let def = WorkflowDefinition {
        nodes: vec![node("a", "A", false, &["complexity:medium"])],
        complexity_rules: vec![(
            "medium".to_string(),
            ComplexityRule { max_files: None, nature: vec!["DataBase".to_string()] },
        )],
    };
    let result = evaluate_workflow(&def, "touch the DATABASE layer", None);
    assert_eq!(result.complexity, "medium");
    assert_eq!(result.skipped_steps[0].reason, "medium任务可跳过「A」");
    let none = evaluate_workflow(&def, "touch the cache", None);
    assert_eq!(none.complexity, "simple");
    assert_eq!(none.suggested_steps.len(), 1);
}

#[test]
fn complexity_names_round_trip() {
    for c in [Complexity::Simple, Complexity::Medium, Complexity::Complex] {
        assert_eq!(Complexity::from_str_opt(&c.to_string()), Some(c));
    }
    assert_eq!(Complexity::from_str_opt("Medium"), Some(Complexity::Medium));
    assert_eq!(Complexity::from_str_opt("COMPLEX"), Some(Complexity::Complex));
    assert_eq!(Complexity::from_str_opt("trivial"), None);
    assert_eq!(Complexity::from_str_opt(""), None);
    assert_eq!(Complexity::Simple.to_string(), "simple");
}

#[test]
fn every_node_becomes_one_step() {
    let def = default_workflow();
    for task in ["", "hello", "修改 config", "migration plan", "fix typo"] {
        let r = evaluate_workflow(&def, task, None);
        assert_eq!(r.suggested_steps.len() + r.skipped_steps.len(), def.nodes.len());
    }
}
