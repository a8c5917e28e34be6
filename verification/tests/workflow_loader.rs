use cunzhi::workflow::default::default_workflow;
use cunzhi::workflow::definition::{ComplexityRule, WorkflowDefinition, WorkflowNode};
use cunzhi::workflow::loader::{
    generate_workflow_rules_text, load_workflow_definition, try_load_custom_workflow,
    CustomWorkflowFile, WorkflowLoadError,
};
use cunzhi::workflow_mcp::server::{XunServer, XunTool};

fn one_node_definition() -> WorkflowDefinition {
    WorkflowDefinition {
        nodes: vec![WorkflowNode {
            id: "only".to_string(),
            name: "唯一".to_string(),
            required: true,
            skip_when: vec![],
            action: "act".to_string(),
        }],
        complexity_rules: vec![],
    }
}

#[test]
fn default_workflow_shape() {
    let def = default_workflow();
    let ids: Vec<&str> = def.nodes.iter().map(|n| n.id.as_str()).collect();
    assert_eq!(ids, vec!["memory_gate", "read_context", "plan_design", "execute", "verify", "gate"]);
    let required: Vec<bool> = def.nodes.iter().map(|n| n.required).collect();
    assert_eq!(required, vec![false, true, false, true, false, true]);
    let levels: Vec<&str> = def.complexity_rules.iter().map(|(l, _)| l.as_str()).collect();
    assert_eq!(levels, vec!["simple", "medium", "complex"]);
    assert_eq!(def.complexity_rules[0].1.max_files, Some(2));
    assert_eq!(def.complexity_rules[2].1.max_files, None);
    assert_eq!(def.complexity_rules[1].1.nature, vec!["new_feature", "multi_file", "refactor", "bug_fix"]);
}

#[test]
fn absent_file_uses_default() {
    assert!(matches!(try_load_custom_workflow(CustomWorkflowFile::Absent), Ok(None)));
    let def = load_workflow_definition(CustomWorkflowFile::Absent);
    assert_eq!(def.nodes.len(), 6);
    assert_eq!(def.nodes[5].id, "gate");
}

#[test]
fn unreadable_and_malformed_files_use_default() {
    match try_load_custom_workflow(CustomWorkflowFile::Unreadable("denied".to_string())) {
        Err(WorkflowLoadError::ReadFailed(e)) => assert_eq!(e, "denied"),
        other => panic!("unexpected {:?}", other.is_ok()),
    }
    match try_load_custom_workflow(CustomWorkflowFile::Malformed("bad yaml".to_string())) {
        Err(WorkflowLoadError::ParseFailed(e)) => assert_eq!(e, "bad yaml"),
        other => panic!("unexpected {:?}", other.is_ok()),
    }
    let def = load_workflow_definition(CustomWorkflowFile::Malformed("x".to_string()));
    assert_eq!(def.nodes[0].id, "memory_gate");
}

#[test]
fn empty_custom_workflow_is_refused() {
    let empty = WorkflowDefinition { nodes: vec![], complexity_rules: vec![] };
    assert!(matches!(
        try_load_custom_workflow(CustomWorkflowFile::Parsed(empty.clone())),
        Err(WorkflowLoadError::NoNodes)
    ));
    let def = load_workflow_definition(CustomWorkflowFile::Parsed(empty));
    assert_eq!(def.nodes.len(), 6);
}

#[test]
fn usable_custom_workflow_is_taken() {
    let def = load_workflow_definition(CustomWorkflowFile::Parsed(one_node_definition()));
    assert_eq!(def.nodes.len(), 1);
    assert_eq!(def.nodes[0].id, "only");
}

#[test]
fn rules_text_of_small_workflow() {
    let def = WorkflowDefinition {
        nodes: vec![
            WorkflowNode {
                id: "a".to_string(),
                name: "甲".to_string(),
                required: true,
                skip_when: vec![],
                action: "做甲".to_string(),
            },
            WorkflowNode {
                id: "b".to_string(),
                name: "乙".to_string(),
                required: false,
                skip_when: vec!["complexity:simple".to_string(), "config_only".to_string()],
                action: "做乙".to_string(),
            },
        ],
        complexity_rules: vec![
            (
                "medium".to_string(),
                ComplexityRule { max_files: Some(105), nature: vec!["x".to_string(), "y".to_string()] },
            ),
            ("complex".to_string(), ComplexityRule { max_files: None, nature: vec![] }),
        ],
    };
    let expected = "# 工作流规则\n\n## 执行节点\n\n\
- **甲** [必需]: 做甲\n\
- **乙**: 做乙\n  跳过条件: complexity:simple, config_only\n\
\n## 复杂度规则\n\n\
### medium\n- 最大文件数: 105\n- 触发关键词: x, y\n\n\
### complex\n\n\
## 核心要求\n\n\
1. 任务开始时调用 `hint` 工具获取工作流建议\n\
2. 按建议的步骤执行（可根据实际情况灵活调整）\n\
3. 完成后**必须**调用寸止(zhi)工具获取用户反馈\n\
4. 未收到\"结束\"指令前，保持循环交互\n";
    assert_eq!(generate_workflow_rules_text(&def), expected);
}

#[test]
fn rules_text_of_default_mentions_every_node() {
    let def = default_workflow();
    let text = generate_workflow_rules_text(&def);
    for n in &def.nodes {
        assert!(text.contains(&format!("- **{}**", n.name)));
    }
    assert!(text.contains("### simple\n- 最大文件数: 2\n"));
    assert!(text.contains("- **上下文读取** [必需]: "));
}

#[test]
fn server_tools_and_instructions() {
    let server = XunServer::new(one_node_definition());
    assert_eq!(XunServer::tool_named("hint"), Some(XunTool::Hint));
    assert_eq!(XunServer::tool_named("check"), Some(XunTool::Check));
    assert_eq!(XunServer::tool_named("other"), None);
    assert_eq!(XunServer::unknown_tool_message("other"), "未知的工具: other");
    let rules = generate_workflow_rules_text(&one_node_definition());
    let instructions = server.instructions();
    assert!(instructions.starts_with("工作流引导工具。"));
    assert!(instructions.contains(&rules));
    assert!(instructions.ends_with("任务完成前可调用 check 工具自检是否遗漏步骤。"));
    let hint = server.hint("anything", None);
    assert_eq!(hint.complexity, "simple");
    assert_eq!(hint.suggested_steps.len(), 1);
}
