use sessync::client::prepare_rows;
use sessync::retry::{
    calculate_retry_delay, is_request_too_large_error, is_retryable_error, BATCH_DELAY_MS,
    INITIAL_RETRY_DELAY_MS, MAX_RETRIES, MAX_RETRY_DELAY_MS,
};
use sessync::session_log::{LogMetadata, SessionLog};

fn create_test_log(uuid: &str) -> SessionLog {
    SessionLog {
        uuid: uuid.to_string(),
        timestamp: "2024-12-25T10:00:00Z".to_string(),
        session_id: "session-001".to_string(),
        agent_id: None,
        is_sidechain: None,
        parent_uuid: None,
        user_type: None,
        message_type: "user".to_string(),
        slug: None,
        request_id: None,
        cwd: None,
        git_branch: None,
        version: None,
        message: "{}".to_string(),
        tool_use_result: None,
        metadata: LogMetadata {
            developer_id: "dev-001".to_string(),
            hostname: "test-host".to_string(),
            user_email: "test@example.com".to_string(),
            project_name: "test-project".to_string(),
            upload_batch_id: "batch-001".to_string(),
            source_file: "/path/to/log.jsonl".to_string(),
            uploaded_at: "2024-12-25T12:00:00Z".to_string(),
        },
    }
}

#[test]
fn uploader_test_calculate_retry_delay_first_retry() {
    let delay = calculate_retry_delay(1);
    assert_eq!(delay, INITIAL_RETRY_DELAY_MS);
}

#[test]
fn uploader_test_calculate_retry_delay_second_retry() {
    let delay = calculate_retry_delay(2);
    assert_eq!(delay, INITIAL_RETRY_DELAY_MS * 2);
}

#[test]
fn uploader_test_calculate_retry_delay_third_retry() {
    let delay = calculate_retry_delay(3);
    assert_eq!(delay, INITIAL_RETRY_DELAY_MS * 4);
}

#[test]
fn uploader_test_calculate_retry_delay_capped() {
    let delay = calculate_retry_delay(10);
    assert_eq!(delay, MAX_RETRY_DELAY_MS);
}

#[test]
fn uploader_test_is_retryable_error_not_found() {
    assert!(is_retryable_error("Table not found"));
    assert!(is_retryable_error("Resource was deleted"));
}

#[test]
fn uploader_test_is_retryable_error_server_errors() {
    assert!(is_retryable_error("503 Service Unavailable"));
    assert!(is_retryable_error("500 Internal Server Error"));
}

#[test]
fn uploader_test_is_retryable_error_rate_limit() {
    assert!(is_retryable_error("403 Quota exceeded"));
    assert!(is_retryable_error("429 Too Many Requests"));
    assert!(is_retryable_error("rate limit exceeded"));
    assert!(is_retryable_error("quota exceeded"));
    assert!(is_retryable_error("Quota limit reached"));
}

#[test]
fn uploader_test_is_retryable_error_non_retryable() {
    assert!(!is_retryable_error("Invalid request"));
    assert!(!is_retryable_error("Authentication failed"));
    assert!(!is_retryable_error("Bad request syntax"));
}

#[test]
fn uploader_test_is_retryable_error_network_errors() {
    assert!(is_retryable_error("connection error"));
    assert!(is_retryable_error("Connection refused"));
    assert!(is_retryable_error("Broken pipe"));
    assert!(is_retryable_error("broken pipe (os error 32)"));
    assert!(is_retryable_error("timeout"));
    assert!(is_retryable_error("Timeout waiting for response"));
    assert!(is_retryable_error("connection reset by peer"));
}

#[test]
fn uploader_test_is_request_too_large_error() {
    assert!(is_request_too_large_error("413 Request Entity Too Large"));
    assert!(is_request_too_large_error(
        "HTTP status client error (413 Request Entity Too Large)"
    ));
    assert!(is_request_too_large_error("error 413"));
    assert!(!is_request_too_large_error("500 Internal Server Error"));
    assert!(!is_request_too_large_error("Connection refused"));
}

#[test]
fn uploader_test_prepare_rows_single() {
    let logs = vec![create_test_log("uuid-1")];
    let rows = prepare_rows(&logs);

    assert_eq!(rows.len(), 1);
    assert_eq!(rows[0].insert_id, Some("uuid-1".to_string()));
    assert_eq!(rows[0].json.uuid, "uuid-1");
}

#[test]
fn uploader_test_prepare_rows_multiple() {
    let logs = vec![
        create_test_log("uuid-1"),
        create_test_log("uuid-2"),
        create_test_log("uuid-3"),
    ];
    let rows = prepare_rows(&logs);

    assert_eq!(rows.len(), 3);
    assert_eq!(rows[0].insert_id, Some("uuid-1".to_string()));
    assert_eq!(rows[1].insert_id, Some("uuid-2".to_string()));
    assert_eq!(rows[2].insert_id, Some("uuid-3".to_string()));
}

#[test]
fn uploader_test_prepare_rows_empty() {
    let logs: Vec<SessionLog> = vec![];
    let rows = prepare_rows(&logs);
    assert!(rows.is_empty());
}

#[test]
fn uploader_test_constants() {
    assert_eq!(MAX_RETRIES, 5);
    assert_eq!(INITIAL_RETRY_DELAY_MS, 1000);
    assert_eq!(MAX_RETRY_DELAY_MS, 32000);
    assert_eq!(BATCH_DELAY_MS, 200);
}
