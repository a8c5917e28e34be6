use cunzhi::mcp::handlers::popup::{
    build_project_popup_scope, build_runtime_popup_request, ensure_project_request_available, find_git_root, hash_project_path,
    is_timeout_source, manual_canonicalize, new_project_popup_state, owns_state, popup_answer,
    popup_failure, project_state_file_name, updated_timer_state, LaunchOutcome,
    NormalizedProjectPath, PathComponent, PopupRequest, PopupSession, PopupStep,
    ProjectPopupScope, ProjectPopupState, RequestAvailability,
};
use cunzhi::mcp::handlers::popup::{
    checked_project_popup_scope, effective_timeout_ms, is_valid_popup_timeout, key_source_fits,
    project_key, DEFAULT_POPUP_TIMEOUT_MS,
};
use cunzhi::text::{contains, decimal, join, starts_with, str_eq, suffix_from};

fn request(id: &str, timeout_ms: u64) -> PopupRequest {
    PopupRequest {
        id: id.to_string(),
        timeout_ms,
        retry_count: 0,
        project_path: Some("raw/path".to_string()),
        project_name: None,
    }
}

fn scope() -> ProjectPopupScope {
    ProjectPopupScope {
        project_key: "abc".to_string(),
        project_path: "/work/proj".to_string(),
        project_name: "proj".to_string(),
    }
}

fn state(id: &str, expires_at_ms: i64, paused: bool) -> ProjectPopupState {
    ProjectPopupState {
        request_id: id.to_string(),
        project_path: "/work/proj".to_string(),
        project_name: "proj".to_string(),
        timeout_ms: 60_000,
        retry_count: 0,
        expires_at_ms,
        paused,
        remaining_ms: 60_000,
        updated_at_ms: 0,
    }
}

#[test]
fn session_retries_then_gives_up() {
    let mut s = PopupSession::new(0, false, 600_000, 2);
    assert_eq!(s.timeout_ms, 600_000);
    let timed_out = || LaunchOutcome::Replied { text: "{}".to_string(), timed_out: true };
    assert!(matches!(s.after_launch(timed_out()), PopupStep::Retry));
    assert_eq!(s.retry_count, 1);
    assert!(matches!(s.after_launch(timed_out()), PopupStep::Retry));
    assert_eq!(s.retry_count, 2);
    match s.after_launch(timed_out()) {
        PopupStep::Answer(t) => assert_eq!(t, "用户长时间未响应，寸止已停止自动重发"),
        other => panic!("{:?}", other),
    }
    assert_eq!(s.retry_count, 2);
}

#[test]
fn session_answer_and_failure() {
    let mut s = PopupSession::new(30_000, true, 600_000, 3);
    assert_eq!(s.timeout_ms, 30_000);
    assert_eq!(s.expires_at(1_000), 31_000);
    match s.after_launch(LaunchOutcome::Replied { text: "done".to_string(), timed_out: false }) {
        PopupStep::Answer(t) => assert_eq!(t, "done"),
        other => panic!("{:?}", other),
    }
    match s.after_launch(LaunchOutcome::Failed("no ui".to_string())) {
        PopupStep::Fail(e) => assert_eq!(e, "no ui"),
        other => panic!("{:?}", other),
    }
    assert_eq!(s.retry_count, 0);
}

#[test]
fn runtime_request_takes_session_and_scope() {
    let mut s = PopupSession::new(5_000, true, 1, 3);
    let _ = s.after_launch(LaunchOutcome::Replied { text: String::new(), timed_out: true });
    let sc = scope();
    let r = build_runtime_popup_request(&request("id7", 99), Some(&sc), s.timeout_ms, s.retry_count);
    assert_eq!(r.id, "id7");
    assert_eq!(r.timeout_ms, 5_000);
    assert_eq!(r.retry_count, 1);
    assert_eq!(r.project_path.as_deref(), Some("/work/proj"));
    assert_eq!(r.project_name.as_deref(), Some("proj"));
    let plain = build_runtime_popup_request(&request("id8", 99), None, s.timeout_ms, s.retry_count);
    assert_eq!(plain.project_path.as_deref(), Some("raw/path"));
    assert_eq!(plain.project_name, None);
}

#[test]
fn popup_texts() {
    assert!(is_timeout_source(Some("popup_timeout")));
    assert!(!is_timeout_source(Some("popup")));
    assert!(!is_timeout_source(None));
    assert_eq!(popup_answer(""), "用户取消了操作");
    assert_eq!(popup_answer("继续"), "继续");
    assert_eq!(popup_failure("crash"), "UI进程失败: crash");
}

#[test]
fn project_request_availability() {
    assert!(matches!(ensure_project_request_available(None, "x", 0), RequestAvailability::Free));
    let same = state("x", 10, false);
    assert!(matches!(ensure_project_request_available(Some(&same), "x", 1_000_000), RequestAvailability::Free));
    let paused = state("other", 0, true);
    let p = ensure_project_request_available(Some(&paused), "x", 5);
    assert_eq!(p.refusal().unwrap(), "当前项目 `proj` 的 cunzhi 请求计时已暂停，请勿重复发起。");
    let expired = state("other", 1_000, false);
    assert!(matches!(
        ensure_project_request_available(Some(&expired), "x", 1_000),
        RequestAvailability::FreeAfterClearingExpired
    ));
    let running = state("other", 10_500, false);
    let b = ensure_project_request_available(Some(&running), "x", 1_000);
    match &b {
        RequestAvailability::Busy { remaining_seconds, .. } => assert_eq!(*remaining_seconds, 9),
        other => panic!("{:?}", other),
    }
    assert_eq!(b.refusal().unwrap(), "当前项目 `proj` 已有未过期的寸止请求，剩余 9 秒，请勿重复发起。");
    let nearly = state("other", 1_400, false);
    match ensure_project_request_available(Some(&nearly), "x", 1_000) {
        RequestAvailability::Busy { remaining_seconds, .. } => assert_eq!(remaining_seconds, 1),
        other => panic!("{:?}", other),
    }
    assert!(RequestAvailability::Free.refusal().is_none());
}

#[test]
fn state_records() {
    let st = new_project_popup_state(&scope(), "rq", 60_000, 2, 70_000, 10_000);
    assert_eq!(st.request_id, "rq");
    assert_eq!(st.project_name, "proj");
    assert!(!st.paused);
    assert_eq!(st.remaining_ms, 60_000);
    assert_eq!(st.expires_at_ms, 70_000);
    assert!(owns_state(Some(&st), "rq"));
    assert!(!owns_state(Some(&st), "other"));
    assert!(!owns_state(None, "rq"));
    assert_eq!(project_state_file_name(&scope()), "abc.json");
}

#[test]
fn timer_updates() {
    let mut req = request("rq", 500);
    req.retry_count = 3;
    let running = updated_timer_state(state("rq", 0, false), &req, 5_000, false, 100).unwrap();
    assert_eq!(running.remaining_ms, 1_000);
    assert_eq!(running.expires_at_ms, 1_100);
    assert_eq!(running.timeout_ms, 500);
    assert_eq!(running.retry_count, 3);
    assert!(!running.paused);
    let paused = updated_timer_state(state("rq", 0, false), &req, 200, true, 100).unwrap();
    assert_eq!(paused.remaining_ms, 200);
    assert_eq!(paused.expires_at_ms, 100 + 31_536_000_000);
    assert!(paused.paused);
    assert!(updated_timer_state(state("zz", 0, false), &req, 200, true, 100).is_none());
}

#[test]
fn project_key_is_sha256_hex() {
    assert_eq!(
        hash_project_path("abc", false),
        "ba7816bf8f01cfea414140de5dae2223b00361a396177a9cb410ff61f20015ad"
    );
    assert_eq!(hash_project_path("ABC", true), hash_project_path("abc", false));
    assert_ne!(hash_project_path("ABC", false), hash_project_path("abc", false));
    assert_eq!(hash_project_path("/any/path", false).len(), 64);
}

#[test]
fn scope_names() {
    assert!(build_project_popup_scope(None, false).is_none());
    let s = build_project_popup_scope(
        Some(NormalizedProjectPath { text: "/work/proj".to_string(), file_name: Some("proj".to_string()) }),
        false,
    )
    .unwrap();
    assert_eq!(s.project_name, "proj");
    assert_eq!(s.project_path, "/work/proj");
    assert_eq!(s.project_key, hash_project_path("/work/proj", false));
    let root = build_project_popup_scope(
        Some(NormalizedProjectPath { text: "/".to_string(), file_name: None }),
        false,
    )
    .unwrap();
    assert_eq!(root.project_name, "/");
}

#[test]
fn lexical_canonicalization() {
    let input = vec![
        PathComponent::RootDir,
        PathComponent::Normal("a".to_string()),
        PathComponent::CurDir,
        PathComponent::Normal("b".to_string()),
        PathComponent::ParentDir,
        PathComponent::Normal("c".to_string()),
    ];
    let out = manual_canonicalize(&input);
    let names: Vec<String> = out
        .iter()
        .map(|c| match c {
            PathComponent::RootDir => "/".to_string(),
            PathComponent::Normal(s) => s.clone(),
            other => format!("{:?}", other),
        })
        .collect();
    assert_eq!(names, vec!["/", "a", "c"]);
    let up = manual_canonicalize(&vec![PathComponent::ParentDir, PathComponent::ParentDir, PathComponent::Normal("x".to_string())]);
    assert_eq!(up.len(), 1);
    let again = manual_canonicalize(&out);
    assert_eq!(again.len(), out.len());
}

#[test]
fn nearest_git_root() {
    assert_eq!(find_git_root(&vec![false, true, true]), Some(1));
    assert_eq!(find_git_root(&vec![true]), Some(0));
    assert_eq!(find_git_root(&vec![false, false]), None);
    assert_eq!(find_git_root(&vec![]), None);
}

#[test]
fn text_primitives() {
    assert!(contains("hello world", "lo w"));
    assert!(contains("abc", ""));
    assert!(!contains("ab", "abc"));
    assert!(contains("重构整体架构", "架构"));
    assert!(starts_with("hello", "he"));
    assert!(!starts_with("he", "hello"));
    assert!(str_eq("ab", "ab"));
    assert!(!str_eq("ab", "abc"));
    assert_eq!(suffix_from("complexity:simple", 11), "simple");
    assert_eq!(decimal(0), "0");
    assert_eq!(decimal(1234567890), "1234567890");
    assert_eq!(decimal(u64::MAX), "18446744073709551615");
    let parts = vec!["a".to_string(), "b".to_string(), "c".to_string()];
    assert_eq!(join(&parts, ", "), "a, b, c");
    assert_eq!(join(&vec![], ", "), "");
}

#[test]
fn documented_timeout_rule() {
    assert_eq!(DEFAULT_POPUP_TIMEOUT_MS, 600_000);
    assert!(is_valid_popup_timeout(60_000));
    assert!(is_valid_popup_timeout(3_600_000));
    assert!(!is_valid_popup_timeout(59_999));
    assert!(!is_valid_popup_timeout(3_600_001));
    assert_eq!(effective_timeout_ms(120_000), 120_000);
    assert_eq!(effective_timeout_ms(0), 600_000);
    assert_eq!(effective_timeout_ms(7_200_000), 600_000);
    let s = PopupSession::for_request(30_000, 4);
    assert_eq!(s.timeout_ms, 600_000);
    assert_eq!(s.retry_count, 0);
    assert_eq!(s.max_retry_count, 4);
    assert_eq!(PopupSession::for_request(300_000, 4).timeout_ms, 300_000);
}

#[test]
fn checked_key_and_scope() {
    assert!(key_source_fits("abc", false));
    assert_eq!(project_key("abc", false), Some(hash_project_path("abc", false)));
    assert_eq!(project_key("ABC", true), Some(hash_project_path("abc", false)));
    let s = checked_project_popup_scope(
        Some(NormalizedProjectPath { text: "/w/p".to_string(), file_name: Some("p".to_string()) }),
        false,
    )
    .unwrap()
    .unwrap();
    assert_eq!(s.project_name, "p");
    assert_eq!(s.project_key, hash_project_path("/w/p", false));
    assert!(matches!(checked_project_popup_scope(None, false), Some(None)));
}

#[test]
fn balanced_absolute_path_keeps_root() {
    let input = vec![
        PathComponent::RootDir,
        PathComponent::Normal("a".to_string()),
        PathComponent::ParentDir,
        PathComponent::Normal("b".to_string()),
        PathComponent::CurDir,
        PathComponent::Normal("c".to_string()),
        PathComponent::ParentDir,
    ];
    let out = manual_canonicalize(&input);
    assert_eq!(out.len(), 2);
    assert!(matches!(out[0], PathComponent::RootDir));
    assert!(matches!(&out[1], PathComponent::Normal(n) if n == "b"));
    let windows = manual_canonicalize(&vec![
        PathComponent::Prefix("C:".to_string()),
        PathComponent::RootDir,
        PathComponent::Normal("x".to_string()),
        PathComponent::ParentDir,
    ]);
    assert_eq!(windows.len(), 2);
    assert!(matches!(&windows[0], PathComponent::Prefix(p) if p == "C:"));
    assert!(matches!(windows[1], PathComponent::RootDir));
}
