use sessync::config::UploadConfig;
use sessync::upload_repository::UploadResult;
use sessync::workflow::{path_to_project_name, Args, SessionUploadWorkflow};

#[test]
fn test_upload_config_new() {
    let config = UploadConfig::new(
        "test-project".to_string(),
        "test_dataset".to_string(),
        "test_table".to_string(),
        "US".to_string(),
        100,
        true,
        "dev-001".to_string(),
        "test@example.com".to_string(),
        "test-project".to_string(),
    );

    assert_eq!(config.project_id, "test-project");
    assert_eq!(config.dataset, "test_dataset");
    assert_eq!(config.table, "test_table");
    assert_eq!(config.location, "US");
    assert_eq!(config.batch_size, 100);
    assert!(config.enable_deduplication);
    assert_eq!(config.developer_id, "dev-001");
    assert_eq!(config.user_email, "test@example.com");
    assert_eq!(config.project_name, "test-project");
}

#[test]
fn test_upload_config_clone() {
    let config = UploadConfig::new(
        "test-project".to_string(),
        "test_dataset".to_string(),
        "test_table".to_string(),
        "US".to_string(),
        100,
        false,
        "dev-001".to_string(),
        "test@example.com".to_string(),
        "test-project".to_string(),
    );

    let cloned = config.clone();

    assert_eq!(cloned.project_id, config.project_id);
    assert_eq!(cloned.batch_size, config.batch_size);
    assert_eq!(cloned.enable_deduplication, config.enable_deduplication);
}

#[test]
fn test_upload_result_new() {
    let uuids = vec!["uuid-1".to_string(), "uuid-2".to_string()];
    let result = UploadResult::new(10, 2, uuids.clone());

    assert_eq!(result.uploaded_count, 10);
    assert_eq!(result.failed_count, 2);
    assert_eq!(result.uploaded_uuids, uuids);
}

#[test]
fn test_upload_result_new_empty() {
    let result = UploadResult::new(0, 0, vec![]);

    assert_eq!(result.uploaded_count, 0);
    assert_eq!(result.failed_count, 0);
    assert!(result.uploaded_uuids.is_empty());
    assert!(result.is_success());
}

#[test]
fn upload_result_with_failures_is_no_success() {
    assert!(UploadResult::new(10, 0, vec![]).is_success());
    assert!(!UploadResult::new(8, 2, vec![]).is_success());
    assert!(!UploadResult::new(0, 10, vec![]).is_success());
}

#[test]
fn test_path_to_project_name_absolute() {
    let result = path_to_project_name("/Users/ronkovic/workspace/project");
    assert_eq!(result, "-Users-ronkovic-workspace-project");
}

#[test]
fn test_path_to_project_name_relative() {
    let result = path_to_project_name("workspace/project");
    assert_eq!(result, "workspace-project");
}

#[test]
fn test_path_to_project_name_single() {
    let result = path_to_project_name("project");
    assert_eq!(result, "project");
}

#[test]
fn test_path_to_project_name_with_root() {
    let result = path_to_project_name("/");
    assert_eq!(result, "-");
}

#[test]
fn path_to_project_name_keeps_other_characters() {
    assert_eq!(path_to_project_name(""), "");
    assert_eq!(path_to_project_name("a//b"), "a--b");
    assert_eq!(path_to_project_name("/données/プロジェクト"), "-données-プロジェクト");
    assert_eq!(path_to_project_name("a\\b-c"), "a\\b-c");
}

fn args(all_projects: bool) -> Args {
    Args {
        dry_run: false,
        auto: false,
        manual: false,
        all_projects,
        config: "config.json".to_string(),
    }
}

#[test]
fn log_dir_of_one_project_or_of_all() {
    let workflow = SessionUploadWorkflow::new();
    assert_eq!(
        workflow.log_dir(&args(false), "/home/user/projects", "/workspace/myproject"),
        "/home/user/projects/-workspace-myproject"
    );
    assert_eq!(
        workflow.log_dir(&args(true), "/home/user/projects", "/workspace/myproject"),
        "/home/user/projects"
    );
    let by_default = SessionUploadWorkflow::default();
    assert_eq!(by_default.log_dir(&args(true), "p", "c"), "p");
}
