use agent_server::video_downloads::{run_step, RunEvent, RunStage, RunUpdate};
use agent_server::video_downloads::{
    claim_succeeded, claimable, create_outcome, download_args, downloaded_size, load_operation, local_id_text,
    mp4_size, run_result, temporary_thumbnail, text_at_most, thumbnail_candidates,
    trigger_failure_code, validate, CreateOutcome, CreateRequest, MediaInfo, Operation, RunFailure,
    SqlValue,
};

#[test]
fn video_operation_only_accepts_group_message_identity() {
    let valid = CreateRequest {
        idempotency_key: "video-group-34".into(),
        chat_id: "53250352594@chatroom".into(),
        local_id: 34,
    };
    assert_eq!(validate(&valid), Ok(()));
    let invalid = CreateRequest {
        chat_id: "someone".into(),
        ..valid
    };
    assert_eq!(validate(&invalid), Err("VIDEO_DOWNLOAD_MESSAGE_ID_INVALID"));
}

fn request(key: &str, chat: &str, local_id: i64) -> CreateRequest {
    CreateRequest { idempotency_key: key.into(), chat_id: chat.into(), local_id }
}

#[test]
fn validation_edges() {
    assert_eq!(validate(&request("", "1@chatroom", 1)), Err("VIDEO_DOWNLOAD_IDEMPOTENCY_KEY_INVALID"));
    assert_eq!(validate(&request(&"k".repeat(201), "1@chatroom", 1)), Err("VIDEO_DOWNLOAD_IDEMPOTENCY_KEY_INVALID"));
    assert_eq!(validate(&request(&"k".repeat(200), "1@chatroom", 0)), Ok(()));
    assert_eq!(validate(&request("k", "1@chatroom", -1)), Err("VIDEO_DOWNLOAD_MESSAGE_ID_INVALID"));
    assert_eq!(validate(&request("k", "1\u{7}@chatroom", 1)), Err("VIDEO_DOWNLOAD_MESSAGE_ID_INVALID"));
    assert_eq!(validate(&request("k", &format!("{}@chatroom", "1".repeat(192)), 1)), Err("VIDEO_DOWNLOAD_MESSAGE_ID_INVALID"));
    assert_eq!(validate(&request("k", &format!("{}@chatroom", "1".repeat(191)), 1)), Ok(()));
}

fn row(state: &str, attempts: i64, updated_at: &str) -> Vec<SqlValue> {
    vec![
        SqlValue::Text("op-1".into()),
        SqlValue::Text("key".into()),
        SqlValue::Text("1@chatroom".into()),
        SqlValue::Integer(7),
        SqlValue::Text(state.into()),
        SqlValue::Integer(attempts),
        SqlValue::Null,
        SqlValue::Null,
        SqlValue::Text("2024-01-01 00:00:00".into()),
        SqlValue::Text(updated_at.into()),
        SqlValue::Null,
    ]
}

fn operation(state: &str, attempts: i64, updated_at: &str) -> Operation {
    load_operation(Some(row(state, attempts, updated_at))).unwrap()
}

#[test]
fn rows_become_operations() {
    let op = operation("queued", 0, "2024-01-01 00:00:00");
    assert_eq!(op.id, "op-1");
    assert_eq!(op.chat_id, "1@chatroom");
    assert_eq!(op.local_id, 7);
    assert_eq!(op.error_code, None);
    assert!(load_operation(None).is_none());
    let mut bad = row("queued", 0, "x");
    bad[3] = SqlValue::Text("7".into());
    assert!(load_operation(Some(bad)).is_none());
    let mut with_code = row("failed", 1, "x");
    with_code[6] = SqlValue::Text("VIDEO_CHAT_NOT_FOUND".into());
    with_code[7] = SqlValue::Integer(99);
    let op = load_operation(Some(with_code)).unwrap();
    assert_eq!(op.error_code.as_deref(), Some("VIDEO_CHAT_NOT_FOUND"));
    assert_eq!(op.size_bytes, Some(99));
    let mut short = row("queued", 0, "x");
    short.pop();
    assert!(load_operation(Some(short)).is_none());
    let mut real = row("queued", 0, "x");
    real[7] = SqlValue::Real;
    assert!(load_operation(Some(real)).is_none());
}

#[test]
fn create_outcomes() {
    let cutoff = "2024-05-01 12:00:00";
    let input = request("key", "1@chatroom", 7);
    assert_eq!(create_outcome(&operation("failed", 1, "2024-05-01 12:30:00"), &input, cutoff), CreateOutcome::Requeue);
    assert_eq!(create_outcome(&operation("failed", 2, "2024-05-01 11:00:00"), &input, cutoff), CreateOutcome::Keep);
    assert_eq!(create_outcome(&operation("locating", 1, "2024-05-01 11:59:59"), &input, cutoff), CreateOutcome::Requeue);
    assert_eq!(create_outcome(&operation("locating", 1, "2024-05-01 12:00:00"), &input, cutoff), CreateOutcome::Requeue);
    assert_eq!(create_outcome(&operation("locating", 1, "2024-05-01 12:00:01"), &input, cutoff), CreateOutcome::Keep);
    assert_eq!(create_outcome(&operation("ready", 1, "2024-01-01 00:00:00"), &input, cutoff), CreateOutcome::Keep);
    assert_eq!(create_outcome(&operation("queued", 0, "2024-05-01 12:00:00"), &request("key", "2@chatroom", 7), cutoff), CreateOutcome::Conflict);
    assert_eq!(create_outcome(&operation("queued", 0, "2024-05-01 12:00:00"), &request("key", "1@chatroom", 8), cutoff), CreateOutcome::Conflict);
}

#[test]
fn text_order_is_byte_order() {
    assert!(text_at_most("", ""));
    assert!(text_at_most("a", "ab"));
    assert!(!text_at_most("ab", "a"));
    assert!(text_at_most("Z", "a"));
    assert!(!text_at_most("é", "z"));
}

#[test]
fn run_helpers() {
    assert!(claim_succeeded(1));
    assert!(!claim_succeeded(0));
    assert!(!claim_succeeded(2));
    assert_eq!(temporary_thumbnail("abc"), "/tmp/agent-video-abc.jpg");
    assert_eq!(thumbnail_candidates("v1"), ("v1_thumb.jpg".to_string(), "v1.jpg".to_string()));
    assert_eq!(local_id_text(-9223372036854775808), "-9223372036854775808");
    assert_eq!(local_id_text(0), "0");
    assert_eq!(local_id_text(34), "34");
    assert_eq!(
        download_args("1@chatroom", "Group", 34, "/v", "s", "/tmp/t.jpg"),
        vec!["--chat-id", "1@chatroom", "--chat-name", "Group", "--local-id", "34", "--video-dir", "/v", "--stem", "s", "--thumbnail", "/tmp/t.jpg"]
            .into_iter()
            .map(String::from)
            .collect::<Vec<_>>()
    );
    assert_eq!(trigger_failure_code(r#"{"errorCode":"VIDEO_NOT_VISIBLE"}"#), "VIDEO_NOT_VISIBLE");
    assert_eq!(trigger_failure_code("not json"), "VIDEO_DOWNLOAD_UI_FAILED");
    assert_eq!(trigger_failure_code(""), "VIDEO_DOWNLOAD_UI_FAILED");
    assert_eq!(trigger_failure_code(r#"{"errorCode":3}"#), "VIDEO_DOWNLOAD_UI_FAILED");
    assert_eq!(trigger_failure_code(r#"{"other":"X"}"#), "VIDEO_DOWNLOAD_UI_FAILED");
    assert_eq!(RunFailure::ChatNotFound.code(), "VIDEO_CHAT_NOT_FOUND");
    assert_eq!(RunFailure::OutputInvalid.code(), "VIDEO_DOWNLOAD_OUTPUT_INVALID");
    assert_eq!(run_result(5), Ok(5));
    assert_eq!(run_result(0), Err(RunFailure::OutputInvalid));
}

fn media(kind: &str, format: &str, name: &str, data: Option<&str>) -> MediaInfo {
    MediaInfo { media_type: kind.into(), format: format.into(), filename: name.into(), data: data.map(String::from) }
}

#[test]
fn downloads_are_checked_for_mp4() {
    // twelve bytes: 0000 "ftyp" "isom"
    let mp4 = "AAAAAGZ0eXBpc29t";
    assert_eq!(mp4_size(Some(b"\0\0\0\0ftypisom".to_vec())), 12);
    assert_eq!(mp4_size(Some(b"\0\0\0\0ftypiso".to_vec())), 0);
    assert_eq!(mp4_size(Some(b"\0\0\0\0ftxpisom".to_vec())), 0);
    assert_eq!(mp4_size(None), 0);
    assert_eq!(downloaded_size(&media("video", "mp4", "msg_34.mp4", Some(mp4)), 34), 12);
    assert_eq!(downloaded_size(&media("video", "mp4", "msg_35.mp4", Some(mp4)), 34), 0);
    assert_eq!(downloaded_size(&media("image", "mp4", "msg_34.mp4", Some(mp4)), 34), 0);
    assert_eq!(downloaded_size(&media("video", "mp4", "msg_34.mp4", Some("not base64!")), 34), 0);
    assert_eq!(downloaded_size(&media("video", "mp4", "msg_34.mp4", None), 34), 0);
}

#[test]
fn a_run_goes_claim_load_lookups_trigger_validate() {
    let (s, u) = run_step(RunStage::Claiming, RunEvent::Claimed(0));
    assert!(s == RunStage::Finished && matches!(u, RunUpdate::Nothing));
    let (s, u) = run_step(RunStage::Claiming, RunEvent::Claimed(1));
    assert!(s == RunStage::Loading && matches!(u, RunUpdate::Nothing));
    let (f, u) = run_step(s, RunEvent::Loaded(false));
    assert!(f == RunStage::Finished && matches!(u, RunUpdate::Nothing));
    let (mut s, u) = run_step(s, RunEvent::Loaded(true));
    assert!(s == RunStage::FindingSession && matches!(u, RunUpdate::State("locating")));
    let lookups = [
        (RunStage::FindingSession, RunStage::ReadingAccount, "SOURCE_SESSION_UNAVAILABLE"),
        (RunStage::ReadingAccount, RunStage::FindingChat, "SOURCE_LOGIN_REQUIRED"),
        (RunStage::FindingChat, RunStage::FindingCacheTarget, "VIDEO_CHAT_NOT_FOUND"),
        (RunStage::FindingCacheTarget, RunStage::CopyingThumbnail, "VIDEO_CACHE_IDENTITY_UNAVAILABLE"),
        (RunStage::CopyingThumbnail, RunStage::Triggering, "VIDEO_THUMBNAIL_WRITE_FAILED"),
    ];
    for (stage, next, code) in lookups {
        assert_eq!(s, stage);
        let (f, u) = run_step(s, RunEvent::Found(false));
        assert!(f == RunStage::Finished && matches!(u, RunUpdate::Failed(ref c) if c == code));
        let (n, u) = run_step(s, RunEvent::Found(true));
        assert_eq!(n, next);
        if next == RunStage::Triggering {
            assert!(matches!(u, RunUpdate::State("triggering")));
        } else {
            assert!(matches!(u, RunUpdate::Nothing));
        }
        s = n;
    }
    // an event of another stage changes nothing
    let (same, u) = run_step(RunStage::Triggering, RunEvent::Found(false));
    assert!(same == RunStage::Triggering && matches!(u, RunUpdate::Nothing));
    let (same, u) = run_step(RunStage::Loading, RunEvent::Claimed(1));
    assert!(same == RunStage::Loading && matches!(u, RunUpdate::Nothing));
    let (f, u) = run_step(s, RunEvent::TriggerExited { exit_code: 2, failure_code: "VIDEO_DOWNLOAD_UI_FAILED".into() });
    assert!(f == RunStage::Finished && matches!(u, RunUpdate::Failed(ref c) if c == "VIDEO_DOWNLOAD_UI_FAILED"));
    let (s, u) = run_step(s, RunEvent::TriggerExited { exit_code: 0, failure_code: String::new() });
    assert!(s == RunStage::Validating && matches!(u, RunUpdate::State("validating")));
    let (f, u) = run_step(s, RunEvent::Validated(0));
    assert!(f == RunStage::Finished && matches!(u, RunUpdate::Failed(ref c) if c == "VIDEO_DOWNLOAD_OUTPUT_INVALID"));
    let (f, u) = run_step(s, RunEvent::Validated(12));
    assert!(f == RunStage::Finished && matches!(u, RunUpdate::Ready(12)));
    let (f, u) = run_step(RunStage::Finished, RunEvent::Validated(12));
    assert!(f == RunStage::Finished && matches!(u, RunUpdate::Nothing));
}

#[test]
fn claim_rule() {
    let stale = "2024-01-01 10:00:00";
    assert!(claimable(&operation("queued", 0, "2024-01-01 10:05:00"), stale));
    assert!(claimable(&operation("failed", 1, "2024-01-01 10:05:00"), stale));
    assert!(!claimable(&operation("failed", 2, "2024-01-01 09:00:00"), stale));
    assert!(!claimable(&operation("queued", 3, "2024-01-01 09:00:00"), stale));
    for working in ["dispatching", "locating", "triggering", "validating"] {
        assert!(claimable(&operation(working, 1, "2024-01-01 10:00:00"), stale));
        assert!(claimable(&operation(working, 0, "2024-01-01 09:59:59"), stale));
        assert!(!claimable(&operation(working, 1, "2024-01-01 10:00:01"), stale));
        assert!(!claimable(&operation(working, 2, "2024-01-01 09:00:00"), stale));
    }
    assert!(!claimable(&operation("ready", 0, "2024-01-01 09:00:00"), stale));
    assert!(!claimable(&operation("unknown", 0, "2024-01-01 09:00:00"), stale));
}
