use sessync::config::UploadConfig;
use sessync::failure::{describe_failure, Failure, UploadError};
use sessync::engine::FailureKind;
use sessync::parse_logs::{attach_metadata, build_records, convert_input_to_session_log};
use sessync::session_log::{copy_text, LogMetadata, SessionLog, SessionLogError, SessionLogInput};
use sessync::system::expand_key_path;
use sessync::uuid_set::UuidSet;

fn metadata() -> LogMetadata {
    LogMetadata {
        developer_id: "dev-001".to_string(),
        hostname: "hostname".to_string(),
        user_email: "test@example.com".to_string(),
        project_name: "project".to_string(),
        upload_batch_id: "batch-001".to_string(),
        source_file: "/path/to/log.jsonl".to_string(),
        uploaded_at: "2024-12-25T12:00:00Z".to_string(),
    }
}

fn create_test_input(uuid: &str) -> SessionLogInput {
    SessionLogInput {
        uuid: uuid.to_string(),
        timestamp: "2024-12-25T10:00:00Z".to_string(),
        session_id: "session-001".to_string(),
        agent_id: None,
        is_sidechain: None,
        parent_uuid: None,
        user_type: None,
        message_type: "user".to_string(),
        slug: None,
        request_id: None,
        cwd: None,
        git_branch: None,
        version: None,
        message: "{}".to_string(),
        tool_use_result: None,
    }
}

fn config(deduplicate: bool) -> UploadConfig {
    UploadConfig::new(
        "test-project".to_string(),
        "test_dataset".to_string(),
        "test_table".to_string(),
        "US".to_string(),
        100,
        deduplicate,
        "dev-001".to_string(),
        "test@example.com".to_string(),
        "test-project".to_string(),
    )
}

#[test]
fn test_session_log_new_validates_uuid() {
    let result = SessionLog::new(
        "".to_string(),
        "2024-12-25T10:00:00Z".to_string(),
        "session-001".to_string(),
        None,
        None,
        None,
        None,
        "user".to_string(),
        None,
        None,
        None,
        None,
        None,
        "{}".to_string(),
        None,
        metadata(),
    );

    assert!(result.is_err());
    assert!(result.unwrap_err().to_string().contains("UUID"));
}

#[test]
fn session_log_new_keeps_every_part() {
    let log = SessionLog::new(
        "id".to_string(),
        "t".to_string(),
        "s".to_string(),
        Some("agent".to_string()),
        Some(true),
        Some("parent".to_string()),
        Some("human".to_string()),
        "assistant".to_string(),
        Some("slug".to_string()),
        Some("req".to_string()),
        Some("/cwd".to_string()),
        Some("main".to_string()),
        Some("2.0".to_string()),
        "{\"a\":1}".to_string(),
        Some("{\"b\":2}".to_string()),
        metadata(),
    )
    .unwrap();
    assert_eq!(log.uuid, "id");
    assert_eq!(log.timestamp, "t");
    assert_eq!(log.session_id, "s");
    assert_eq!(log.agent_id.as_deref(), Some("agent"));
    assert_eq!(log.is_sidechain, Some(true));
    assert_eq!(log.parent_uuid.as_deref(), Some("parent"));
    assert_eq!(log.user_type.as_deref(), Some("human"));
    assert_eq!(log.message_type, "assistant");
    assert_eq!(log.slug.as_deref(), Some("slug"));
    assert_eq!(log.request_id.as_deref(), Some("req"));
    assert_eq!(log.cwd.as_deref(), Some("/cwd"));
    assert_eq!(log.git_branch.as_deref(), Some("main"));
    assert_eq!(log.version.as_deref(), Some("2.0"));
    assert_eq!(log.message, "{\"a\":1}");
    assert_eq!(log.tool_use_result.as_deref(), Some("{\"b\":2}"));
    assert_eq!(log.metadata.developer_id, "dev-001");
    assert_eq!(log.metadata.uploaded_at, "2024-12-25T12:00:00Z");
}

#[test]
fn the_error_of_an_empty_id() {
    assert_eq!(SessionLogError::EmptyUuid.to_string(), "UUID cannot be empty");
}

#[test]
fn copy_of_an_optional_text() {
    assert_eq!(copy_text(&Some("x".to_string())), Some("x".to_string()));
    assert_eq!(copy_text(&None), None);
}

#[test]
fn test_expand_key_path_absolute() {
    let result = expand_key_path("/absolute/path/key.json");
    assert_eq!(result, "/absolute/path/key.json");
}

#[test]
fn test_expand_key_path_relative() {
    let result = expand_key_path("./relative/path/key.json");
    assert_eq!(result, "./relative/path/key.json");
}

#[test]
fn expand_key_path_leaves_what_has_no_leading_tilde() {
    assert_eq!(expand_key_path(""), "");
    assert_eq!(expand_key_path("a/~/b"), "a/~/b");
    assert_eq!(expand_key_path("key~"), "key~");
}

#[test]
fn metadata_is_attached_to_what_was_read() {
    let mut input = create_test_input("uuid-7");
    input.agent_id = Some("agent".to_string());
    input.tool_use_result = Some("{\"output\":\"success\"}".to_string());
    let log = attach_metadata(input, metadata());
    assert_eq!(log.uuid, "uuid-7");
    assert_eq!(log.agent_id.as_deref(), Some("agent"));
    assert_eq!(log.tool_use_result.as_deref(), Some("{\"output\":\"success\"}"));
    assert_eq!(log.metadata.hostname, "hostname");
    assert_eq!(log.metadata.upload_batch_id, "batch-001");
    let blank = attach_metadata(create_test_input(""), metadata());
    assert_eq!(blank.uuid, "");
}

#[test]
fn records_of_a_file_with_and_without_deduplication() {
    let inputs = vec![create_test_input("a"), create_test_input("b"), create_test_input("c")];
    let known = UuidSet::from_vec(vec!["b".to_string()]);

    let fresh = build_records(&inputs, &metadata(), &known, true);
    assert_eq!(fresh.iter().map(|l| l.uuid.as_str()).collect::<Vec<_>>(), vec!["a", "c"]);
    assert_eq!(fresh[0].metadata.source_file, "/path/to/log.jsonl");
    assert_eq!(fresh[1].metadata.developer_id, "dev-001");

    let all = build_records(&inputs, &metadata(), &known, false);
    assert_eq!(all.iter().map(|l| l.uuid.as_str()).collect::<Vec<_>>(), vec!["a", "b", "c"]);

    assert!(build_records(&vec![], &metadata(), &known, true).is_empty());
}

#[test]
fn conversion_takes_the_metadata_from_the_configuration() {
    let log = convert_input_to_session_log(
        create_test_input("uuid-1"),
        "/logs/session.jsonl",
        &config(true),
        "batch-42",
    )
    .unwrap();
    assert_eq!(log.uuid, "uuid-1");
    assert_eq!(log.session_id, "session-001");
    assert_eq!(log.metadata.developer_id, "dev-001");
    assert_eq!(log.metadata.user_email, "test@example.com");
    assert_eq!(log.metadata.project_name, "test-project");
    assert_eq!(log.metadata.upload_batch_id, "batch-42");
    assert_eq!(log.metadata.source_file, "/logs/session.jsonl");
    assert!(!log.metadata.hostname.is_empty());
    assert!(log.metadata.uploaded_at.len() >= 20);
    assert!(log.metadata.uploaded_at.contains('T'));
}

#[test]
fn conversion_refuses_an_empty_id() {
    let made = convert_input_to_session_log(create_test_input(""), "f", &config(true), "b");
    assert_eq!(made.unwrap_err(), SessionLogError::EmptyUuid);
}

#[test]
fn failures_and_their_context() {
    let failure = Failure::new("inner");
    assert_eq!(failure.causes, vec!["inner".to_string()]);
    let outer = failure.clone().context("outer");
    assert_eq!(outer.causes, vec!["outer".to_string(), "inner".to_string()]);
    assert_eq!(outer.to_string(), "outer | inner");
    assert_eq!(failure.to_string(), "inner");
}

#[test]
fn every_kind_of_failure_has_its_words() {
    assert_eq!(describe_failure(FailureKind::ConnectFailed), "Failed to create BigQuery client");
    assert_eq!(describe_failure(FailureKind::ReconnectFailed), "Failed to recreate BigQuery client");
    assert_eq!(
        describe_failure(FailureKind::TooLargeAtMinimumSize),
        "Batch too large even at minimum size"
    );
    assert_eq!(describe_failure(FailureKind::TooManyConnectionResets), "Too many connection resets");
    assert_eq!(describe_failure(FailureKind::RetriesExhausted), "Failed to upload to BigQuery");
    assert_eq!(describe_failure(FailureKind::Fatal), "Failed to upload to BigQuery");
}

#[test]
fn an_upload_error_as_a_chain() {
    let error = UploadError {
        kind: FailureKind::RetriesExhausted,
        batch_num: 2,
        retry_count: 5,
        connection_reset_count: 1,
        cause: Failure::new("503").context("BigQuery insert failed"),
    };
    assert_eq!(
        error.to_failure().causes,
        vec![
            "Failed to upload batch".to_string(),
            "Failed to upload to BigQuery".to_string(),
            "BigQuery insert failed".to_string(),
            "503".to_string(),
        ]
    );
    assert_eq!(
        error.to_string(),
        "Failed to upload batch | Failed to upload to BigQuery | BigQuery insert failed | 503"
    );
}
