use sessync::deduplication::DeduplicationService;
use sessync::session_log::{LogMetadata, SessionLog, SessionLogInput};
use sessync::uuid_set::UuidSet;

fn create_test_log(uuid: &str) -> SessionLog {
    let metadata = LogMetadata {
        developer_id: "dev-001".to_string(),
        hostname: "test-host".to_string(),
        user_email: "test@example.com".to_string(),
        project_name: "test-project".to_string(),
        upload_batch_id: "batch-001".to_string(),
        source_file: "/path/to/log.jsonl".to_string(),
        uploaded_at: "2024-12-25T12:00:00Z".to_string(),
    };

    SessionLog {
        uuid: uuid.to_string(),
        timestamp: "2024-12-25T10:00:00Z".to_string(),
        session_id: "session-001".to_string(),
        agent_id: None,
        is_sidechain: None,
        parent_uuid: None,
        user_type: None,
        message_type: "user".to_string(),
        slug: None,
        request_id: None,
        cwd: None,
        git_branch: None,
        version: None,
        message: "{}".to_string(),
        tool_use_result: None,
        metadata,
    }
}

fn set_of(ids: &[&str]) -> UuidSet {
    UuidSet::from_vec(ids.iter().map(|s| s.to_string()).collect())
}

#[test]
fn test_filter_duplicates_removes_uploaded() {
    let log1 = create_test_log("uuid-1");
    let log2 = create_test_log("uuid-2");
    let log3 = create_test_log("uuid-3");

    let logs = vec![log1, log2, log3];
    let uploaded = set_of(&["uuid-1", "uuid-3"]);

    let result = DeduplicationService::filter_duplicates(logs, &uploaded, true);

    assert_eq!(result.len(), 1);
    assert_eq!(result[0].uuid, "uuid-2");
}

#[test]
fn test_filter_duplicates_disabled() {
    let log1 = create_test_log("uuid-1");
    let log2 = create_test_log("uuid-2");

    let logs = vec![log1, log2];
    let uploaded = set_of(&["uuid-1"]);

    let result = DeduplicationService::filter_duplicates(logs, &uploaded, false);

    assert_eq!(result.len(), 2);
}

#[test]
fn test_filter_duplicates_empty_uploaded() {
    let log1 = create_test_log("uuid-1");
    let log2 = create_test_log("uuid-2");

    let logs = vec![log1, log2];
    let uploaded = UuidSet::new();

    let result = DeduplicationService::filter_duplicates(logs, &uploaded, true);

    assert_eq!(result.len(), 2);
}

#[test]
fn test_filter_duplicates_all_uploaded() {
    let log1 = create_test_log("uuid-1");
    let log2 = create_test_log("uuid-2");

    let logs = vec![log1, log2];
    let uploaded = set_of(&["uuid-1", "uuid-2"]);

    let result = DeduplicationService::filter_duplicates(logs, &uploaded, true);

    assert_eq!(result.len(), 0);
}

#[test]
fn test_extract_uuids() {
    let log1 = create_test_log("uuid-1");
    let log2 = create_test_log("uuid-2");
    let log3 = create_test_log("uuid-3");

    let logs = vec![log1, log2, log3];

    let uuids = DeduplicationService::extract_uuids(&logs);

    assert_eq!(uuids.len(), 3);
    assert_eq!(uuids[0], "uuid-1");
    assert_eq!(uuids[1], "uuid-2");
    assert_eq!(uuids[2], "uuid-3");
}

#[test]
fn test_extract_uuids_empty() {
    let logs: Vec<SessionLog> = vec![];

    let uuids = DeduplicationService::extract_uuids(&logs);

    assert_eq!(uuids.len(), 0);
}

#[test]
fn filter_keeps_the_order_of_what_is_left() {
    let logs = vec![create_test_log("a"), create_test_log("b"), create_test_log("c")];
    let uploaded = set_of(&["b"]);

    let kept = DeduplicationService::filter_duplicates(logs.clone(), &uploaded, true);
    assert_eq!(DeduplicationService::extract_uuids(&kept), vec!["a", "c"]);
    assert_eq!(kept[1].metadata.source_file, "/path/to/log.jsonl");

    let all = DeduplicationService::filter_duplicates(logs, &uploaded, false);
    assert_eq!(DeduplicationService::extract_uuids(&all), vec!["a", "b", "c"]);
}

#[test]
fn filter_keeps_every_copy_of_an_unknown_id() {
    let logs = vec![create_test_log("a"), create_test_log("b"), create_test_log("a")];
    let kept = DeduplicationService::filter_duplicates(logs, &set_of(&["b"]), true);
    assert_eq!(DeduplicationService::extract_uuids(&kept), vec!["a", "a"]);
}

#[test]
fn clones_of_records_keep_every_field() {
    let mut log = create_test_log("a");
    log.agent_id = Some("agent".to_string());
    log.is_sidechain = Some(false);
    log.parent_uuid = Some("p".to_string());
    log.user_type = Some("human".to_string());
    log.slug = Some("s".to_string());
    log.request_id = Some("r".to_string());
    log.cwd = Some("/w".to_string());
    log.git_branch = Some("main".to_string());
    log.version = Some("1.0".to_string());
    log.tool_use_result = Some("{}".to_string());
    let copy = log.clone();
    assert_eq!(format!("{:?}", copy), format!("{:?}", log));

    let input = SessionLogInput {
        uuid: "i".to_string(),
        timestamp: "t".to_string(),
        session_id: "s".to_string(),
        agent_id: Some("a".to_string()),
        is_sidechain: Some(true),
        parent_uuid: None,
        user_type: None,
        message_type: "user".to_string(),
        slug: None,
        request_id: None,
        cwd: None,
        git_branch: Some("b".to_string()),
        version: None,
        message: "{\"content\":\"test\"}".to_string(),
        tool_use_result: None,
    };
    assert_eq!(format!("{:?}", input.clone()), format!("{:?}", input));
}
