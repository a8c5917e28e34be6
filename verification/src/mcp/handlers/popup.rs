//! Decisions behind the feedback popup: the retry session, the per-project
//! state that keeps two popups of one project apart, and the project key.
//!
//! Launching the popup process, the clock and the state files are the
//! caller's part; they hand their results to the functions here.

use vstd::prelude::*;
use vstd::utf8::encode_utf8;
use crate::text::{decimal, decimal_of, lowercase_of, str_eq, to_lowercase};

verus! {

// ---------------------------------------------------------------------------
// Requests and per-project state
// ---------------------------------------------------------------------------

/// The parts of a popup request that this module reads and writes.
#[derive(Debug)]
pub struct PopupRequest {
    pub id: String,
    pub timeout_ms: u64,
    pub retry_count: u32,
    pub project_path: Option<String>,
    pub project_name: Option<String>,
}

/// The project a popup belongs to.
#[derive(Debug)]
pub struct ProjectPopupScope {
    /// Lower-case hex SHA-256 of the project path; names the state file.
    pub project_key: String,
    pub project_path: String,
    pub project_name: String,
}

/// The recorded state of a project's pending popup. Instants are
/// milliseconds since the Unix epoch.
#[derive(Debug)]
pub struct ProjectPopupState {
    pub request_id: String,
    pub project_path: String,
    pub project_name: String,
    pub timeout_ms: u64,
    pub retry_count: u32,
    pub expires_at_ms: i64,
    pub paused: bool,
    pub remaining_ms: u64,
    pub updated_at_ms: i64,
}

fn copy_opt(s: &Option<String>) -> (r: Option<String>)
    ensures
        r == *s,
{
    match s {
        Some(x) => Some(x.clone()),
        None => None,
    }
}

// ---------------------------------------------------------------------------
// The retry session of one popup request
// ---------------------------------------------------------------------------

/// What came of one launch of the popup.
pub enum LaunchOutcome {
    /// The popup answered; `timed_out` tells whether the answer is the
    /// popup's own timeout notice.
    Replied { text: String, timed_out: bool },
    /// The popup could not be shown or failed.
    Failed(String),
}

/// What to do after a launch.
#[derive(Debug)]
pub enum PopupStep {
    /// Launch again, with the session's new retry count.
    Retry,
    /// Clear the project state and return this answer.
    Answer(String),
    /// Clear the project state and return this error.
    Fail(String),
}

/// The text returned when the user never answered.
pub open spec fn gave_up_text() -> Seq<char> {
    "用户长时间未响应，寸止已停止自动重发"@
}

/// The popup timeout used when a request gives none that is valid: ten
/// minutes.
pub const DEFAULT_POPUP_TIMEOUT_MS: u64 = 600_000;

/// The shortest popup timeout a request may set: one minute.
pub const MIN_POPUP_TIMEOUT_MS: u64 = 60_000;

/// The longest popup timeout a request may set: sixty minutes.
pub const MAX_POPUP_TIMEOUT_MS: u64 = 3_600_000;

/// A requested timeout is valid from one to sixty minutes inclusive.
pub fn is_valid_popup_timeout(timeout_ms: u64) -> (r: bool)
    ensures
        r == (MIN_POPUP_TIMEOUT_MS <= timeout_ms && timeout_ms <= MAX_POPUP_TIMEOUT_MS),
{
    MIN_POPUP_TIMEOUT_MS <= timeout_ms && timeout_ms <= MAX_POPUP_TIMEOUT_MS
}

/// The timeout a popup runs with: the requested one where it is valid,
/// ten minutes otherwise; always within one to sixty minutes.
pub fn effective_timeout_ms(requested_timeout_ms: u64) -> (r: u64)
    ensures
        r == (if MIN_POPUP_TIMEOUT_MS <= requested_timeout_ms && requested_timeout_ms
            <= MAX_POPUP_TIMEOUT_MS {
            requested_timeout_ms
        } else {
            DEFAULT_POPUP_TIMEOUT_MS
        }),
        MIN_POPUP_TIMEOUT_MS <= r <= MAX_POPUP_TIMEOUT_MS,
{
    if is_valid_popup_timeout(requested_timeout_ms) {
        requested_timeout_ms
    } else {
        DEFAULT_POPUP_TIMEOUT_MS
    }
}

/// The timeout and retry count of a popup request being served.
pub struct PopupSession {
    pub timeout_ms: u64,
    pub retry_count: u32,
    pub max_retry_count: u32,
}

impl PopupSession {
    /// The retry count never passes the limit.
    pub open spec fn wf(self) -> bool {
        self.retry_count <= self.max_retry_count
    }

    /// Starts serving a request: its own timeout where that is valid,
    /// the default otherwise, and no retries yet.
    pub fn new(
        requested_timeout_ms: u64,
        requested_is_valid: bool,
        default_timeout_ms: u64,
        max_retry_count: u32,
    ) -> (r: Self)
        ensures
            r.timeout_ms == (if requested_is_valid {
                requested_timeout_ms
            } else {
                default_timeout_ms
            }),
            r.retry_count == 0,
            r.max_retry_count == max_retry_count,
            r.wf(),
    {
        let timeout_ms = if requested_is_valid {
            requested_timeout_ms
        } else {
            default_timeout_ms
        };
        PopupSession { timeout_ms, retry_count: 0, max_retry_count }
    }

    /// Starts serving a request with the documented timeout rule: the
    /// requested timeout when it lies within one to sixty minutes, ten
    /// minutes otherwise.
    pub fn for_request(requested_timeout_ms: u64, max_retry_count: u32) -> (r: Self)
        ensures
            r.timeout_ms == (if MIN_POPUP_TIMEOUT_MS <= requested_timeout_ms
                && requested_timeout_ms <= MAX_POPUP_TIMEOUT_MS {
                requested_timeout_ms
            } else {
                DEFAULT_POPUP_TIMEOUT_MS
            }),
            r.retry_count == 0,
            r.max_retry_count == max_retry_count,
            r.wf(),
    {
        let valid = is_valid_popup_timeout(requested_timeout_ms);
        Self::new(requested_timeout_ms, valid, DEFAULT_POPUP_TIMEOUT_MS, max_retry_count)
    }

    /// When the current attempt expires, `timeout_ms` after `now_ms`.
    pub fn expires_at(&self, now_ms: i64) -> (r: i64)
        requires
            self.timeout_ms <= i64::MAX,
            now_ms + self.timeout_ms <= i64::MAX,
        ensures
            r == now_ms + self.timeout_ms,
    {
        now_ms + (self.timeout_ms as i64)
    }

    /// The decision after a launch: a timed-out answer is retried until
    /// the limit is reached, then given up; any other answer or failure
    /// ends the request.
    pub fn after_launch(&mut self, outcome: LaunchOutcome) -> (r: PopupStep)
        requires
            old(self).wf(),
        ensures
            final(self).wf(),
            final(self).timeout_ms == old(self).timeout_ms,
            final(self).max_retry_count == old(self).max_retry_count,
            match outcome {
                LaunchOutcome::Replied { text, timed_out } => if !timed_out {
                    r == PopupStep::Answer(text) && final(self).retry_count
                        == old(self).retry_count
                } else if old(self).retry_count >= old(self).max_retry_count {
                    final(self).retry_count == old(self).retry_count && (r matches PopupStep::Answer(
                        t,
                    ) && t@ == gave_up_text())
                } else {
                    r == PopupStep::Retry && final(self).retry_count == old(self).retry_count + 1
                },
                LaunchOutcome::Failed(e) => r == PopupStep::Fail(e) && final(self).retry_count
                    == old(self).retry_count,
            },
    {
        match outcome {
            LaunchOutcome::Replied { text, timed_out } => {
                if !timed_out {
                    PopupStep::Answer(text)
                } else if self.retry_count >= self.max_retry_count {
                    PopupStep::Answer(String::from_str("用户长时间未响应，寸止已停止自动重发"))
                } else {
                    self.retry_count = self.retry_count + 1;
                    PopupStep::Retry
                }
            },
            LaunchOutcome::Failed(e) => PopupStep::Fail(e),
        }
    }
}

/// The request as the popup receives it: the session's timeout and retry
/// count, and the project's canonical path and name where there is a
/// project.
pub fn build_runtime_popup_request(
    request: &PopupRequest,
    project_scope: Option<&ProjectPopupScope>,
    timeout_ms: u64,
    retry_count: u32,
) -> (r: PopupRequest)
    ensures
        r.id == request.id,
        r.timeout_ms == timeout_ms,
        r.retry_count == retry_count,
        match project_scope {
            Some(s) => r.project_path == Some(s.project_path) && r.project_name == Some(
                s.project_name,
            ),
            None => r.project_path == request.project_path && r.project_name
                == request.project_name,
        },
{
    match project_scope {
        Some(s) => PopupRequest {
            id: request.id.clone(),
            timeout_ms,
            retry_count,
            project_path: Some(s.project_path.clone()),
            project_name: Some(s.project_name.clone()),
        },
        None => PopupRequest {
            id: request.id.clone(),
            timeout_ms,
            retry_count,
            project_path: copy_opt(&request.project_path),
            project_name: copy_opt(&request.project_name),
        },
    }
}

/// A popup answer marks a timeout when its metadata source is
/// "popup_timeout".
pub fn is_timeout_source(source: Option<&str>) -> (r: bool)
    ensures
        r == (match source {
            Some(s) => s@ == "popup_timeout"@,
            None => false,
        }),
{
    match source {
        Some(s) => str_eq(s, "popup_timeout"),
        None => false,
    }
}

/// What a popup process printed, once trimmed: an empty answer means the
/// user cancelled.
pub fn popup_answer(trimmed_stdout: &str) -> (r: String)
    ensures
        r@ == (if trimmed_stdout@.len() == 0 {
            "用户取消了操作"@
        } else {
            trimmed_stdout@
        }),
{
    if trimmed_stdout.unicode_len() == 0 {
        String::from_str("用户取消了操作")
    } else {
        String::from_str(trimmed_stdout)
    }
}

/// The error for a popup process that failed, with what it wrote to stderr.
pub fn popup_failure(stderr: &str) -> (r: String)
    ensures
        r@ == "UI进程失败: "@ + stderr@,
{
    let mut r = String::from_str("UI进程失败: ");
    r.append(stderr);
    r
}

// ---------------------------------------------------------------------------
// Per-project state
// ---------------------------------------------------------------------------

/// Whether a new request of the project may go ahead.
#[derive(Debug)]
pub enum RequestAvailability {
    /// Nothing pending, or the pending request is this one.
    Free,
    /// The pending request has expired; its state is to be cleared.
    FreeAfterClearingExpired,
    /// The pending request's timer is paused.
    Paused { project_name: String },
    /// The pending request is still running for this many seconds.
    Busy { project_name: String, remaining_seconds: u64 },
}

/// Whole seconds left until `expires_at_ms`, at least one.
pub open spec fn remaining_seconds_of(expires_at_ms: i64, now_ms: i64) -> int {
    let s = (expires_at_ms - now_ms) / 1000;
    if s < 1 {
        1
    } else {
        s
    }
}

/// The recorded state holds off request `request_id`: it belongs to another
/// request that is paused or has not yet expired at `now_ms`.
pub open spec fn holds_off(st: ProjectPopupState, request_id: Seq<char>, now_ms: i64) -> bool {
    st.request_id@ != request_id && (st.paused || now_ms < st.expires_at_ms)
}

/// Decides whether request `current_request_id` of the project may be shown,
/// given the project's recorded state.
pub fn ensure_project_request_available(
    state: Option<&ProjectPopupState>,
    current_request_id: &str,
    now_ms: i64,
) -> (r: RequestAvailability)
    ensures
        match state {
            None => r == RequestAvailability::Free,
            Some(st) => if st.request_id@ == current_request_id@ {
                r == RequestAvailability::Free
            } else if st.paused {
                r == RequestAvailability::Paused { project_name: st.project_name }
            } else if st.expires_at_ms <= now_ms {
                r == RequestAvailability::FreeAfterClearingExpired
            } else {
                r == RequestAvailability::Busy {
                    project_name: st.project_name,
                    remaining_seconds: remaining_seconds_of(st.expires_at_ms, now_ms) as u64,
                }
            },
        },
        (r is Paused || r is Busy) <==> (state matches Some(st) && holds_off(
            *st,
            current_request_id@,
            now_ms,
        )),
{
    match state {
        None => RequestAvailability::Free,
        Some(st) => {
            if str_eq(st.request_id.as_str(), current_request_id) {
                return RequestAvailability::Free;
            }
            if st.paused {
                return RequestAvailability::Paused { project_name: st.project_name.clone() };
            }
            if st.expires_at_ms <= now_ms {
                return RequestAvailability::FreeAfterClearingExpired;
            }
            let diff: i128 = (st.expires_at_ms as i128) - (now_ms as i128);
            let secs: i128 = diff / 1000;
            let secs: i128 = if secs < 1 {
                1
            } else {
                secs
            };
            RequestAvailability::Busy {
                project_name: st.project_name.clone(),
                remaining_seconds: secs as u64,
            }
        },
    }
}

impl RequestAvailability {
    /// The refusal text for a request that may not go ahead.
    pub fn refusal(&self) -> (r: Option<String>)
        ensures
            match self {
                RequestAvailability::Paused { project_name } => r matches Some(m) && m@
                    == "当前项目 `"@ + project_name@ + "` 的 cunzhi 请求计时已暂停，请勿重复发起。"@,
                RequestAvailability::Busy { project_name, remaining_seconds } => r matches Some(m)
                    && m@ == "当前项目 `"@ + project_name@
                    + "` 已有未过期的寸止请求，剩余 "@ + decimal_of(*remaining_seconds as nat)
                    + " 秒，请勿重复发起。"@,
                _ => r is None,
            },
    {
        match self {
            RequestAvailability::Paused { project_name } => {
                let mut m = String::from_str("当前项目 `");
                m.append(project_name.as_str());
                m.append("` 的 cunzhi 请求计时已暂停，请勿重复发起。");
                Some(m)
            },
            RequestAvailability::Busy { project_name, remaining_seconds } => {
                let mut m = String::from_str("当前项目 `");
                m.append(project_name.as_str());
                m.append("` 已有未过期的寸止请求，剩余 ");
                let digits = decimal(*remaining_seconds);
                m.append(digits.as_str());
                m.append(" 秒，请勿重复发起。");
                Some(m)
            },
            _ => None,
        }
    }
}

/// The state recorded when an attempt starts: running, not paused, with
/// the whole timeout remaining.
pub fn new_project_popup_state(
    scope: &ProjectPopupScope,
    request_id: &str,
    timeout_ms: u64,
    retry_count: u32,
    expires_at_ms: i64,
    now_ms: i64,
) -> (r: ProjectPopupState)
    ensures
        r.request_id@ == request_id@,
        r.project_path == scope.project_path,
        r.project_name == scope.project_name,
        r.timeout_ms == timeout_ms,
        r.retry_count == retry_count,
        r.expires_at_ms == expires_at_ms,
        !r.paused,
        r.remaining_ms == timeout_ms,
        r.updated_at_ms == now_ms,
{
    ProjectPopupState {
        request_id: String::from_str(request_id),
        project_path: scope.project_path.clone(),
        project_name: scope.project_name.clone(),
        timeout_ms,
        retry_count,
        expires_at_ms,
        paused: false,
        remaining_ms: timeout_ms,
        updated_at_ms: now_ms,
    }
}

/// Milliseconds in a year of 365 days: how far a paused timer is pushed.
pub open spec fn paused_horizon_ms() -> int {
    31_536_000_000int
}

/// The remaining time the popup reports, capped at the request's timeout
/// (and that at least one second).
pub open spec fn capped_remaining_ms(remaining_ms: u64, timeout_ms: u64) -> int {
    let cap: int = if timeout_ms < 1000 {
        1000
    } else {
        timeout_ms as int
    };
    if (remaining_ms as int) < cap {
        remaining_ms as int
    } else {
        cap
    }
}

/// The state after the popup reports its timer: `None` (nothing to write)
/// when the recorded state belongs to another request; otherwise the
/// request's timeout and retry count, the capped remaining time, and an
/// expiry a year away while paused or after the remaining time otherwise.
pub fn updated_timer_state(
    state: ProjectPopupState,
    request: &PopupRequest,
    remaining_ms: u64,
    paused: bool,
    now_ms: i64,
) -> (r: Option<ProjectPopupState>)
    requires
        paused ==> now_ms + paused_horizon_ms() <= i64::MAX,
        !paused ==> capped_remaining_ms(remaining_ms, request.timeout_ms) <= i64::MAX,
        !paused ==> now_ms + capped_remaining_ms(remaining_ms, request.timeout_ms) <= i64::MAX,
    ensures
        state.request_id@ != request.id@ ==> r is None,
        state.request_id@ == request.id@ ==> r == Some(
            ProjectPopupState {
                timeout_ms: request.timeout_ms,
                retry_count: request.retry_count,
                paused,
                remaining_ms: capped_remaining_ms(remaining_ms, request.timeout_ms) as u64,
                updated_at_ms: now_ms,
                expires_at_ms: (if paused {
                    now_ms + paused_horizon_ms()
                } else {
                    now_ms + capped_remaining_ms(remaining_ms, request.timeout_ms)
                }) as i64,
                ..state
            },
        ),
{
    if !str_eq(state.request_id.as_str(), request.id.as_str()) {
        return None;
    }
    let cap: u64 = if request.timeout_ms < 1000 {
        1000
    } else {
        request.timeout_ms
    };
    let capped: u64 = if remaining_ms < cap {
        remaining_ms
    } else {
        cap
    };
    let expires_at_ms: i64 = if paused {
        now_ms + 31_536_000_000i64
    } else {
        now_ms + (capped as i64)
    };
    let mut next = state;
    next.timeout_ms = request.timeout_ms;
    next.retry_count = request.retry_count;
    next.paused = paused;
    next.remaining_ms = capped;
    next.updated_at_ms = now_ms;
    next.expires_at_ms = expires_at_ms;
    Some(next)
}

/// A recorded state is removed only by the request it belongs to.
pub fn owns_state(state: Option<&ProjectPopupState>, request_id: &str) -> (r: bool)
    ensures
        r == (match state {
            Some(st) => st.request_id@ == request_id@,
            None => false,
        }),
{
    match state {
        Some(st) => str_eq(st.request_id.as_str(), request_id),
        None => false,
    }
}

/// The file name of the project's state: its key and ".json".
pub fn project_state_file_name(scope: &ProjectPopupScope) -> (r: String)
    ensures
        r@ == scope.project_key@ + ".json"@,
{
    let mut r = scope.project_key.clone();
    r.append(".json");
    r
}

// ---------------------------------------------------------------------------
// Project identity
// ---------------------------------------------------------------------------

/// What `ring::digest::digest` with SHA-256 returns for these bytes.
pub uninterp spec fn sha256_of(data: Seq<u8>) -> Seq<u8>;

/// Calls `ring::digest::digest(&SHA256, data)`; the digest is named
/// `sha256_of` of the bytes and is 32 bytes long (`SHA256_OUTPUT_LEN`).
/// ring panics for inputs of 2^61 bytes or more, which `requires` excludes.
#[verifier::external_body]
fn sha256_digest(data: &[u8]) -> (r: Vec<u8>)
    requires
        data@.len() < 0x2000_0000_0000_0000,
    ensures
        r@ == sha256_of(data@),
        r@.len() == 32,
{
    ring::digest::digest(&ring::digest::SHA256, data).as_ref().to_vec()
}

/// The lower-case hexadecimal digit of a nibble.
pub open spec fn hex_digit(n: int) -> char {
    if n < 10 {
        (48 + n) as char
    } else {
        (87 + n) as char
    }
}

/// Lower-case hexadecimal, two digits per byte, high nibble first.
pub open spec fn hex_of(bytes: Seq<u8>) -> Seq<char>
    decreases bytes.len(),
{
    if bytes.len() == 0 {
        Seq::empty()
    } else {
        seq![hex_digit(bytes[0] as int / 16), hex_digit(bytes[0] as int % 16)] + hex_of(bytes.drop_first())
    }
}

/// Calls `hex::encode`, which writes each byte as two lower-case hex
/// digits, high nibble first.
#[verifier::external_body]
fn hex_encode(data: &[u8]) -> (r: String)
    ensures
        r@ == hex_of(data@),
{
    hex::encode(data)
}

pub proof fn lemma_hex_len(bytes: Seq<u8>)
    ensures
        hex_of(bytes).len() == 2 * bytes.len(),
    decreases bytes.len(),
{
    if bytes.len() > 0 {
        lemma_hex_len(bytes.drop_first());
    }
}

/// The characters that are hashed: the path, lower-cased where the file
/// system ignores case.
pub open spec fn key_source(project_path: Seq<char>, fold_case: bool) -> Seq<char> {
    if fold_case {
        lowercase_of(project_path)
    } else {
        project_path
    }
}

/// Lower-case hex SHA-256 of the bytes.
fn digest_hex(bytes: &[u8]) -> (r: String)
    requires
        bytes@.len() < 0x2000_0000_0000_0000,
    ensures
        r@ == hex_of(sha256_of(bytes@)),
        r@.len() == 64,
{
    let digest = sha256_digest(bytes);
    let r = hex_encode(digest.as_slice());
    proof {
        lemma_hex_len(digest@);
    }
    r
}

/// The characters that are hashed, as a string.
fn key_source_text(project_path: &str, fold_case: bool) -> (r: String)
    ensures
        r@ == key_source(project_path@, fold_case),
{
    if fold_case {
        to_lowercase(project_path)
    } else {
        String::from_str(project_path)
    }
}

/// The project key: lower-case hex SHA-256 of the path's UTF-8 bytes,
/// lower-cased first where `fold_case` (on Windows).
pub fn hash_project_path(project_path: &str, fold_case: bool) -> (r: String)
    requires
        encode_utf8(key_source(project_path@, fold_case)).len() < 0x2000_0000_0000_0000,
    ensures
        r@ == hex_of(sha256_of(encode_utf8(key_source(project_path@, fold_case)))),
        r@.len() == 64,
{
    let normalized = key_source_text(project_path, fold_case);
    digest_hex(normalized.as_str().as_bytes())
}

/// The hashed bytes are few enough for SHA-256 (under 2^61).
pub fn key_source_fits(project_path: &str, fold_case: bool) -> (r: bool)
    ensures
        r == (encode_utf8(key_source(project_path@, fold_case)).len() < 0x2000_0000_0000_0000),
{
    let normalized = key_source_text(project_path, fold_case);
    let bytes = normalized.as_str().as_bytes();
    (bytes.len() as u64) < 0x2000_0000_0000_0000u64
}

/// The project key where the path can be hashed, `None` where its bytes
/// are too many for SHA-256.
pub fn project_key(project_path: &str, fold_case: bool) -> (r: Option<String>)
    ensures
        r is Some <==> encode_utf8(key_source(project_path@, fold_case)).len()
            < 0x2000_0000_0000_0000,
        r matches Some(k) ==> k@ == hex_of(
            sha256_of(encode_utf8(key_source(project_path@, fold_case))),
        ) && k@.len() == 64,
{
    let normalized = key_source_text(project_path, fold_case);
    let bytes = normalized.as_str().as_bytes();
    if (bytes.len() as u64) < 0x2000_0000_0000_0000u64 {
        Some(digest_hex(bytes))
    } else {
        None
    }
}

/// A project path after normalization: its text and, where it is valid
/// Unicode, its last component when that is a normal name.
pub struct NormalizedProjectPath {
    pub text: String,
    pub file_name: Option<String>,
}

/// The scope of a request's project: none without a project; otherwise the
/// path, its last component as the name (the whole path when it has none),
/// and the key of the path.
pub fn build_project_popup_scope(project: Option<NormalizedProjectPath>, fold_case: bool) -> (r:
    Option<ProjectPopupScope>)
    requires
        project matches Some(p) ==> encode_utf8(key_source(p.text@, fold_case)).len()
            < 0x2000_0000_0000_0000,
    ensures
        match project {
            None => r is None,
            Some(p) => r matches Some(s) && s.project_path == p.text && s.project_name@ == (
            match p.file_name {
                Some(n) => if n@.len() > 0 {
                    n@
                } else {
                    p.text@
                },
                None => p.text@,
            }) && s.project_key@ == hex_of(
                sha256_of(encode_utf8(key_source(p.text@, fold_case))),
            ),
        },
{
    match project {
        None => None,
        Some(p) => {
            let project_name = match &p.file_name {
                Some(n) => if n.as_str().unicode_len() > 0 {
                    n.clone()
                } else {
                    p.text.clone()
                },
                None => p.text.clone(),
            };
            let project_key = hash_project_path(p.text.as_str(), fold_case);
            Some(ProjectPopupScope { project_key, project_path: p.text, project_name })
        },
    }
}

/// The project name: the path's last normal component, or the whole path
/// where there is none or it is empty.
pub open spec fn scope_name(p: NormalizedProjectPath) -> Seq<char> {
    match p.file_name {
        Some(n) => if n@.len() > 0 {
            n@
        } else {
            p.text@
        },
        None => p.text@,
    }
}

/// [`build_project_popup_scope`] for any input: `None` where the path's
/// bytes are too many to hash, otherwise `Some` of the scope it builds.
pub fn checked_project_popup_scope(project: Option<NormalizedProjectPath>, fold_case: bool) -> (r:
    Option<Option<ProjectPopupScope>>)
    ensures
        match project {
            None => r == Some(None::<ProjectPopupScope>),
            Some(p) => if encode_utf8(key_source(p.text@, fold_case)).len()
                < 0x2000_0000_0000_0000 {
                r matches Some(Some(s)) && s.project_path == p.text && s.project_name@
                    == scope_name(p) && s.project_key@ == hex_of(
                    sha256_of(encode_utf8(key_source(p.text@, fold_case))),
                )
            } else {
                r is None
            },
        },
{
    match &project {
        Some(p) => {
            if !key_source_fits(p.text.as_str(), fold_case) {
                return None;
            }
        },
        None => {},
    }
    Some(build_project_popup_scope(project, fold_case))
}

// ---------------------------------------------------------------------------
// Paths
// ---------------------------------------------------------------------------

/// A component of a file system path.
#[derive(Debug)]
pub enum PathComponent {
    Prefix(String),
    RootDir,
    CurDir,
    ParentDir,
    Normal(String),
}

/// Lexical normalization: "." components are dropped and ".." removes the
/// component before it, where there is one.
pub open spec fn canonical_components(cs: Seq<PathComponent>) -> Seq<PathComponent>
    decreases cs.len(),
{
    if cs.len() == 0 {
        Seq::empty()
    } else {
        let acc = canonical_components(cs.drop_last());
        match cs.last() {
            PathComponent::CurDir => acc,
            PathComponent::ParentDir => if acc.len() > 0 {
                acc.drop_last()
            } else {
                acc
            },
            c => acc.push(c),
        }
    }
}

fn copy_component(c: &PathComponent) -> (r: PathComponent)
    ensures
        r == *c,
{
    match c {
        PathComponent::Prefix(s) => PathComponent::Prefix(s.clone()),
        PathComponent::RootDir => PathComponent::RootDir,
        PathComponent::CurDir => PathComponent::CurDir,
        PathComponent::ParentDir => PathComponent::ParentDir,
        PathComponent::Normal(s) => PathComponent::Normal(s.clone()),
    }
}

/// Normalizes a path without the file system, for paths that cannot be
/// canonicalized.
pub fn manual_canonicalize(components: &Vec<PathComponent>) -> (r: Vec<PathComponent>)
    ensures
        r@ == canonical_components(components@),
{
    let mut out: Vec<PathComponent> = Vec::new();
    let n = components.len();
    let mut i: usize = 0;
    while i < n
        invariant
            n == components@.len(),
            i <= n,
            out@ == canonical_components(components@.take(i as int)),
        decreases n - i,
    {
        proof {
            assert(components@.take(i + 1).drop_last() =~= components@.take(i as int));
            assert(components@.take(i + 1).last() == components@[i as int]);
        }
        match &components[i] {
            PathComponent::CurDir => {},
            PathComponent::ParentDir => {
                if out.len() > 0 {
                    let _ = out.pop();
                    assert(out@ =~= canonical_components(components@.take(i + 1)));
                }
            },
            c => {
                out.push(copy_component(c));
            },
        }
        i = i + 1;
    }
    assert(components@.take(n as int) =~= components@);
    out
}

/// The position of the nearest ancestor that holds a ".git" entry, given
/// for each ancestor, nearest first, whether it holds one.
pub fn find_git_root(has_git: &Vec<bool>) -> (r: Option<usize>)
    ensures
        match r {
            Some(i) => i < has_git@.len() && has_git@[i as int] && forall|k: int|
                0 <= k < i ==> !#[trigger] has_git@[k],
            None => forall|k: int| 0 <= k < has_git@.len() ==> !#[trigger] has_git@[k],
        },
{
    let mut i: usize = 0;
    while i < has_git.len()
        invariant
            i <= has_git@.len(),
            forall|k: int| 0 <= k < i ==> !#[trigger] has_git@[k],
        decreases has_git@.len() - i,
    {
        if has_git[i] {
            return Some(i);
        }
        i = i + 1;
    }
    None
}

/// A "." or ".." component.
pub open spec fn is_dot_component(c: PathComponent) -> bool {
    c is CurDir || c is ParentDir
}

/// Lexical normalization leaves no "." or ".." component behind.
pub proof fn law_canonical_has_no_dots(cs: Seq<PathComponent>)
    ensures
        forall|i: int|
            0 <= i < canonical_components(cs).len() ==> !is_dot_component(
                #[trigger] canonical_components(cs)[i],
            ),
    decreases cs.len(),
{
    if cs.len() > 0 {
        law_canonical_has_no_dots(cs.drop_last());
        let acc = canonical_components(cs.drop_last());
        assert forall|i: int|
            0 <= i < canonical_components(cs).len() implies !is_dot_component(
                #[trigger] canonical_components(cs)[i],
            ) by {
            match cs.last() {
                PathComponent::CurDir => {},
                PathComponent::ParentDir => {
                    if acc.len() > 0 {
                        assert(canonical_components(cs)[i] == acc[i]);
                    }
                },
                _ => {
                    if i < acc.len() {
                        assert(canonical_components(cs)[i] == acc[i]);
                    }
                },
            }
        }
    }
}

proof fn lemma_canonical_keeps_dotless(cs: Seq<PathComponent>)
    requires
        forall|i: int| 0 <= i < cs.len() ==> !is_dot_component(#[trigger] cs[i]),
    ensures
        canonical_components(cs) == cs,
    decreases cs.len(),
{
    if cs.len() > 0 {
        assert forall|i: int| 0 <= i < cs.drop_last().len() implies !is_dot_component(
            #[trigger] cs.drop_last()[i],
        ) by {
            assert(cs.drop_last()[i] == cs[i]);
        }
        lemma_canonical_keeps_dotless(cs.drop_last());
        assert(!is_dot_component(cs[cs.len() - 1]));
        assert(cs.drop_last().push(cs.last()) =~= cs);
    }
}

/// Normalizing an already normalized path changes nothing.
pub proof fn law_canonicalize_idempotent(cs: Seq<PathComponent>)
    ensures
        canonical_components(canonical_components(cs)) == canonical_components(cs),
{
    law_canonical_has_no_dots(cs);
    lemma_canonical_keeps_dotless(canonical_components(cs));
}

/// The project lock: once a request's state is recorded, running and not
/// expired, every other request of the project is held off until it
/// expires, while the request itself is never held off.
pub proof fn law_project_lock(st: ProjectPopupState, other: Seq<char>, now_ms: i64)
    requires
        !st.paused,
        now_ms < st.expires_at_ms,
        other != st.request_id@,
    ensures
        holds_off(st, other, now_ms),
        !holds_off(st, st.request_id@, now_ms),
        forall|later: i64| st.expires_at_ms <= later ==> !holds_off(st, other, later),
{
}

/// A paused timer holds off every other request of the project, whatever
/// the time.
pub proof fn law_paused_lock_holds(st: ProjectPopupState, other: Seq<char>, now_ms: i64)
    requires
        st.paused,
        other != st.request_id@,
    ensures
        holds_off(st, other, now_ms),
{
}

/// Number of normal (named) components.
pub open spec fn count_normal(cs: Seq<PathComponent>) -> int
    decreases cs.len(),
{
    if cs.len() == 0 {
        0
    } else {
        count_normal(cs.drop_last()) + if cs.last() is Normal {
            1int
        } else {
            0int
        }
    }
}

/// Number of ".." components.
pub open spec fn count_parent(cs: Seq<PathComponent>) -> int
    decreases cs.len(),
{
    if cs.len() == 0 {
        0
    } else {
        count_parent(cs.drop_last()) + if cs.last() is ParentDir {
            1int
        } else {
            0int
        }
    }
}

/// The length of the path's anchor: 1 for a root ("/"), 2 for a prefix
/// followed by a root ("C:\\"), 0 for a relative path.
pub open spec fn anchor_len(cs: Seq<PathComponent>) -> int {
    if cs.len() > 0 && cs[0] is RootDir {
        1
    } else if cs.len() > 1 && cs[0] is Prefix && cs[1] is RootDir {
        2
    } else {
        0
    }
}

/// No beginning of the path climbs above where it starts: every prefix has
/// at most as many ".." as named components.
pub open spec fn balanced(cs: Seq<PathComponent>) -> bool {
    forall|k: int| 0 <= k <= cs.len() ==> count_parent(#[trigger] cs.take(k)) <= count_normal(
        cs.take(k),
    )
}

proof fn lemma_anchor_kept(cs: Seq<PathComponent>, a: int, k: int)
    requires
        a == anchor_len(cs),
        a > 0,
        a <= k <= cs.len(),
        balanced(cs),
    ensures
        canonical_components(cs.take(k)).len() >= a + count_normal(cs.take(k)) - count_parent(
            cs.take(k),
        ),
        forall|i: int| 0 <= i < a ==> #[trigger] canonical_components(cs.take(k))[i] == cs[i],
    decreases k,
{
    if k == a {
        let t = cs.take(a);
        assert forall|i: int| 0 <= i < t.len() implies !is_dot_component(#[trigger] t[i]) by {}
        lemma_canonical_keeps_dotless(t);
        assert(t.drop_last().len() == a - 1);
        if a == 2 {
            assert(t.drop_last().drop_last() =~= Seq::<PathComponent>::empty());
            assert(count_normal(t.drop_last().drop_last()) == 0);
            assert(count_parent(t.drop_last().drop_last()) == 0);
            assert(t.drop_last().last() == cs[0]);
            assert(count_normal(t.drop_last()) == 0);
            assert(count_parent(t.drop_last()) == 0);
        } else {
            assert(t.drop_last() =~= Seq::<PathComponent>::empty());
            assert(count_normal(t.drop_last()) == 0);
            assert(count_parent(t.drop_last()) == 0);
        }
        assert(t.last() == cs[a - 1]);
        assert(count_normal(t) == 0);
        assert(count_parent(t) == 0);
    } else {
        lemma_anchor_kept(cs, a, k - 1);
        let prev = cs.take(k - 1);
        let cur = cs.take(k);
        assert(cur.drop_last() =~= prev);
        assert(cur.last() == cs[k - 1]);
        assert(count_parent(cur) <= count_normal(cur));
        let acc = canonical_components(prev);
        match cs[k - 1] {
            PathComponent::ParentDir => {
                assert(acc.len() > a);
                assert forall|i: int| 0 <= i < a implies #[trigger] canonical_components(cur)[i]
                    == cs[i] by {
                    assert(canonical_components(cur)[i] == acc[i]);
                }
            },
            PathComponent::CurDir => {},
            _ => {
                assert forall|i: int| 0 <= i < a implies #[trigger] canonical_components(cur)[i]
                    == cs[i] by {
                    assert(canonical_components(cur)[i] == acc[i]);
                }
            },
        }
    }
}

/// An absolute path in which no beginning climbs above the root stays
/// absolute under lexical normalization: it keeps its root (and prefix),
/// and keeps at least as many components after it as it has named
/// components left over after the ".." ones.
pub proof fn law_balanced_absolute_path_stays_absolute(cs: Seq<PathComponent>)
    requires
        anchor_len(cs) > 0,
        balanced(cs),
    ensures
        canonical_components(cs).len() >= anchor_len(cs) + count_normal(cs) - count_parent(cs),
        anchor_len(canonical_components(cs)) == anchor_len(cs),
        canonical_components(cs).take(anchor_len(cs)) == cs.take(anchor_len(cs)),
{
    let a = anchor_len(cs);
    lemma_anchor_kept(cs, a, cs.len() as int);
    assert(cs.take(cs.len() as int) =~= cs);
    let r = canonical_components(cs);
    assert(count_parent(cs.take(cs.len() as int)) <= count_normal(cs.take(cs.len() as int)));
    assert(r.len() >= a);
    assert(r[0] == cs[0]);
    if a == 2 {
        assert(r[1] == cs[1]);
    }
    assert(r.take(a) =~= cs.take(a));
}

} // verus!
