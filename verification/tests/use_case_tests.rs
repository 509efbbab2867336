use std::cell::RefCell;
use std::rc::Rc;

use sessync::bigquery_upload_repository::BigQueryUploadRepository;
use sessync::client::{
    BigQueryClientFactory, BigQueryInserter, InsertAllRequest, InsertAllResponse, Sleeper,
};
use sessync::config::{Config, UploadConfig};
use sessync::deduplication::DeduplicationService;
use sessync::failure::Failure;
use sessync::log_repository::LogRepository;
use sessync::parse_logs::{DiscoverLogsUseCase, ParseLogsUseCase};
use sessync::session_log::{LogMetadata, SessionLog, SessionLogInput};
use sessync::state_repository::{StateRepository, UploadState};
use sessync::upload_batch::UploadBatch;
use sessync::upload_logs::{copy_texts, UploadLogsUseCase, UploadSummary};
use sessync::upload_repository::{UploadRepository, UploadResult};
use sessync::workflow::{Args, SessionUploadWorkflow, WorkflowOutcome};

fn create_test_log(uuid: &str) -> SessionLog {
    SessionLog {
        uuid: uuid.to_string(),
        timestamp: "2024-12-25T10:00:00Z".to_string(),
        session_id: "session-001".to_string(),
        agent_id: None,
        is_sidechain: None,
        parent_uuid: None,
        user_type: None,
        message_type: "user".to_string(),
        slug: None,
        request_id: None,
        cwd: None,
        git_branch: None,
        version: None,
        message: "{}".to_string(),
        tool_use_result: None,
        metadata: LogMetadata {
            developer_id: "dev-001".to_string(),
            hostname: "test-host".to_string(),
            user_email: "test@example.com".to_string(),
            project_name: "test-project".to_string(),
            upload_batch_id: "batch-001".to_string(),
            source_file: "/path/to/log.jsonl".to_string(),
            uploaded_at: "2024-12-25T12:00:00Z".to_string(),
        },
    }
}

fn create_test_input(uuid: &str) -> SessionLogInput {
    SessionLogInput {
        uuid: uuid.to_string(),
        timestamp: "2024-12-25T10:00:00Z".to_string(),
        session_id: "session-001".to_string(),
        agent_id: None,
        is_sidechain: None,
        parent_uuid: None,
        user_type: None,
        message_type: "user".to_string(),
        slug: None,
        request_id: None,
        cwd: None,
        git_branch: None,
        version: None,
        message: "{}".to_string(),
        tool_use_result: None,
    }
}

fn upload_config(batch_size: usize, deduplicate: bool) -> UploadConfig {
    UploadConfig::new(
        "test-project".to_string(),
        "test_dataset".to_string(),
        "test_table".to_string(),
        "US".to_string(),
        batch_size,
        deduplicate,
        "dev-001".to_string(),
        "test@example.com".to_string(),
        "test-project".to_string(),
    )
}

fn config(batch_size: u32, deduplicate: bool) -> Config {
    Config {
        project_id: "test-project".to_string(),
        dataset: "test_dataset".to_string(),
        table: "test_table".to_string(),
        location: "US".to_string(),
        upload_batch_size: batch_size,
        enable_auto_upload: false,
        enable_deduplication: deduplicate,
        developer_id: "test-dev".to_string(),
        user_email: "test@example.com".to_string(),
        project_name: "test-project".to_string(),
        service_account_key_path: "/tmp/test-key.json".to_string(),
    }
}

struct MockUploadRepository {
    should_succeed: bool,
    batches: Rc<RefCell<Vec<usize>>>,
}

impl UploadRepository for MockUploadRepository {
    fn upload_batch(&mut self, batch: &UploadBatch) -> Result<UploadResult, Failure> {
        self.batches.borrow_mut().push(batch.len());
        if self.should_succeed {
            let uuids = DeduplicationService::extract_uuids(batch.logs());
            Ok(UploadResult::new(batch.len(), 0, uuids))
        } else {
            Err(Failure::new("Upload failed"))
        }
    }
}

#[derive(Clone)]
struct MockStateRepository {
    state: Rc<RefCell<UploadState>>,
    loads: Rc<RefCell<usize>>,
    saves: Rc<RefCell<usize>>,
}

impl MockStateRepository {
    fn new() -> Self {
        MockStateRepository {
            state: Rc::new(RefCell::new(UploadState::new())),
            loads: Rc::new(RefCell::new(0)),
            saves: Rc::new(RefCell::new(0)),
        }
    }

    fn get_state(&self) -> UploadState {
        self.state.borrow().clone()
    }
}

impl StateRepository for MockStateRepository {
    fn load(&mut self, _path: &str) -> Result<UploadState, Failure> {
        *self.loads.borrow_mut() += 1;
        Ok(self.state.borrow().clone())
    }

    fn save(&mut self, _path: &str, state: &UploadState) -> Result<(), Failure> {
        *self.saves.borrow_mut() += 1;
        *self.state.borrow_mut() = state.clone();
        Ok(())
    }
}

fn use_case(
    should_succeed: bool,
    states: &MockStateRepository,
) -> (UploadLogsUseCase<MockUploadRepository, MockStateRepository>, Rc<RefCell<Vec<usize>>>) {
    let batches = Rc::new(RefCell::new(vec![]));
    (
        UploadLogsUseCase::new(
            MockUploadRepository { should_succeed, batches: batches.clone() },
            states.clone(),
        ),
        batches,
    )
}

#[test]
fn test_upload_logs_success() {
    let states = MockStateRepository::new();
    let (mut use_case, _) = use_case(true, &states);

    let logs = vec![
        create_test_log("uuid-1"),
        create_test_log("uuid-2"),
        create_test_log("uuid-3"),
    ];

    let result = use_case.execute(logs, &upload_config(100, true), "/path/to/state.json", "batch-001");

    assert!(result.is_ok());
    let summary = result.unwrap();
    assert_eq!(summary.uploaded_count, 3);
    assert_eq!(summary.failed_count, 0);
    assert_eq!(summary.uploaded_uuids.len(), 3);

    let state = states.get_state();
    assert_eq!(state.total_uploaded, 3);
    assert_eq!(state.uploaded_uuids.len(), 3);
    assert_eq!(state.last_upload_batch_id, Some("batch-001".to_string()));
    assert!(state.last_upload_timestamp.is_some());
}

#[test]
fn test_upload_logs_empty() {
    let states = MockStateRepository::new();
    let (mut use_case, batches) = use_case(true, &states);

    let result = use_case.execute(vec![], &upload_config(100, true), "/path/to/state.json", "batch-001");

    assert!(result.is_ok());
    let summary = result.unwrap();
    assert_eq!(summary.uploaded_count, 0);
    assert_eq!(summary.failed_count, 0);
    assert!(batches.borrow().is_empty());
    assert_eq!(*states.loads.borrow(), 0);
    assert_eq!(*states.saves.borrow(), 0);
}

#[test]
fn test_upload_logs_batch_splitting() {
    let states = MockStateRepository::new();
    let (mut use_case, batches) = use_case(true, &states);

    let logs = vec![
        create_test_log("uuid-1"),
        create_test_log("uuid-2"),
        create_test_log("uuid-3"),
        create_test_log("uuid-4"),
        create_test_log("uuid-5"),
    ];

    let result = use_case.execute(logs, &upload_config(2, true), "/path/to/state.json", "batch-001");

    assert!(result.is_ok());
    let summary = result.unwrap();
    assert_eq!(summary.uploaded_count, 5);
    assert_eq!(summary.uploaded_uuids.len(), 5);
    assert_eq!(*batches.borrow(), vec![2, 2, 1]);
}

#[test]
fn test_upload_logs_failure() {
    let states = MockStateRepository::new();
    let (mut use_case, _) = use_case(false, &states);

    let logs = vec![create_test_log("uuid-1")];

    let result = use_case.execute(logs, &upload_config(100, true), "/path/to/state.json", "batch-001");

    assert!(result.is_err());
    assert_eq!(*states.saves.borrow(), 0);
    assert!(states.get_state().uploaded_uuids.is_empty());
}

#[test]
fn a_second_run_uploads_nothing_again() {
    let states = MockStateRepository::new();

    let (mut first, _) = use_case(true, &states);
    let summary = first
        .execute(vec![create_test_log("x")], &upload_config(100, true), "state", "run-1")
        .unwrap();
    assert_eq!(summary.uploaded_uuids, vec!["x".to_string()]);
    assert_eq!(states.get_state().total_uploaded, 1);

    let (mut second, batches) = use_case(true, &states);
    let summary = second
        .execute(vec![create_test_log("x")], &upload_config(100, true), "state", "run-2")
        .unwrap();
    assert_eq!(summary.uploaded_count, 0);
    assert!(summary.uploaded_uuids.is_empty());
    assert!(batches.borrow().is_empty());

    let state = states.get_state();
    assert_eq!(state.total_uploaded, 1);
    assert_eq!(state.uploaded_uuids.to_vec(), vec!["x".to_string()]);
    assert_eq!(state.last_upload_batch_id, Some("run-1".to_string()));
    assert_eq!(*states.saves.borrow(), 1);
}

#[test]
fn without_deduplication_a_known_id_is_sent_again_but_counted_once() {
    let states = MockStateRepository::new();
    let (mut first, _) = use_case(true, &states);
    first.execute(vec![create_test_log("x")], &upload_config(100, false), "state", "run-1").unwrap();
    let (mut second, batches) = use_case(true, &states);
    let summary = second
        .execute(
            vec![create_test_log("x"), create_test_log("y")],
            &upload_config(100, false),
            "state",
            "run-2",
        )
        .unwrap();
    assert_eq!(summary.uploaded_count, 2);
    assert_eq!(*batches.borrow(), vec![2]);
    let state = states.get_state();
    assert_eq!(state.total_uploaded, 2);
    assert_eq!(state.uploaded_uuids.len(), 2);
    assert_eq!(state.last_upload_batch_id, Some("run-2".to_string()));
}

#[test]
fn the_state_is_loaded_afresh_before_it_is_saved() {
    let states = MockStateRepository::new();
    let (mut use_case, _) = use_case(true, &states);
    use_case.execute(vec![create_test_log("a")], &upload_config(0, true), "state", "b").unwrap();
    assert_eq!(*states.loads.borrow(), 2);
    assert_eq!(*states.saves.borrow(), 1);
    let (uploads, _) = use_case.into_repositories();
    assert_eq!(*uploads.batches.borrow(), vec![1]);
}

#[test]
fn a_summary_takes_up_the_outcomes_of_batches() {
    let mut summary = UploadSummary::empty();
    summary.absorb(UploadResult::new(2, 1, vec!["a".to_string(), "b".to_string()]));
    summary.absorb(UploadResult::new(1, 0, vec!["c".to_string()]));
    assert_eq!(summary.uploaded_count, 3);
    assert_eq!(summary.failed_count, 1);
    assert_eq!(summary.uploaded_uuids, vec!["a", "b", "c"]);
    summary.absorb(UploadResult::new(usize::MAX, usize::MAX, vec![]));
    assert_eq!(summary.uploaded_count, usize::MAX);
    assert_eq!(summary.failed_count, usize::MAX);
    assert_eq!(copy_texts(&summary.uploaded_uuids), summary.uploaded_uuids);
}

struct MockLogRepository {
    files: Vec<String>,
    logs: Vec<SessionLogInput>,
    asked: Rc<RefCell<Vec<String>>>,
}

impl MockLogRepository {
    fn new(files: &[&str], ids: &[&str]) -> Self {
        MockLogRepository {
            files: files.iter().map(|s| s.to_string()).collect(),
            logs: ids.iter().map(|id| create_test_input(id)).collect(),
            asked: Rc::new(RefCell::new(vec![])),
        }
    }
}

impl LogRepository for MockLogRepository {
    fn discover_log_files(&mut self, log_dir: &str) -> Result<Vec<String>, Failure> {
        self.asked.borrow_mut().push(log_dir.to_string());
        Ok(self.files.clone())
    }

    fn parse_log_file(&mut self, _file_path: &str) -> Result<Vec<SessionLogInput>, Failure> {
        Ok(self.logs.clone())
    }
}

#[test]
fn test_discover_logs_success() {
    let mut use_case = DiscoverLogsUseCase::new(MockLogRepository::new(
        &["/path/to/log1.jsonl", "/path/to/log2.jsonl"],
        &[],
    ));
    let result = use_case.execute("/path/to/logs");
    assert!(result.is_ok());
    assert_eq!(result.unwrap().len(), 2);
}

#[test]
fn test_discover_logs_empty() {
    let mut use_case = DiscoverLogsUseCase::new(MockLogRepository::new(&[], &[]));
    let result = use_case.execute("/path/to/logs");
    assert!(result.is_ok());
    assert!(result.unwrap().is_empty());
}

fn states_knowing(ids: &[&str]) -> MockStateRepository {
    let states = MockStateRepository::new();
    for id in ids {
        states.state.borrow_mut().uploaded_uuids.insert(id.to_string());
    }
    states
}

#[test]
fn test_parse_logs_with_deduplication() {
    let logs = MockLogRepository::new(&[], &["uuid-1", "uuid-2", "uuid-3"]);
    let mut use_case = ParseLogsUseCase::new(logs, states_knowing(&["uuid-1"]));
    let result = use_case.execute(
        &vec!["/path/to/log.jsonl".to_string()],
        &upload_config(100, true),
        "/path/to/state.json",
        "batch-001",
    );
    let parsed = result.unwrap();
    assert_eq!(parsed.len(), 2);
    assert_eq!(parsed[0].uuid, "uuid-2");
    assert_eq!(parsed[1].uuid, "uuid-3");
    assert_eq!(parsed[0].metadata.upload_batch_id, "batch-001");
    assert_eq!(parsed[0].metadata.source_file, "/path/to/log.jsonl");
}

#[test]
fn test_parse_logs_without_deduplication() {
    let logs = MockLogRepository::new(&[], &["uuid-1", "uuid-2"]);
    let mut use_case = ParseLogsUseCase::new(logs, states_knowing(&["uuid-1"]));
    let result = use_case.execute(
        &vec!["/path/to/log.jsonl".to_string()],
        &upload_config(100, false),
        "/path/to/state.json",
        "batch-001",
    );
    assert_eq!(result.unwrap().len(), 2);
}

#[test]
fn test_parse_logs_empty_files() {
    let logs = MockLogRepository::new(&[], &[]);
    let mut use_case = ParseLogsUseCase::new(logs, MockStateRepository::new());
    let result = use_case.execute(
        &vec!["/path/to/log.jsonl".to_string()],
        &upload_config(100, true),
        "/path/to/state.json",
        "batch-001",
    );
    assert!(result.unwrap().is_empty());
}

#[test]
fn parsing_ends_at_a_record_without_an_id() {
    let logs = MockLogRepository::new(&[], &["uuid-1", ""]);
    let mut use_case = ParseLogsUseCase::new(logs, MockStateRepository::new());
    let result = use_case.execute(
        &vec!["a.jsonl".to_string(), "b.jsonl".to_string()],
        &upload_config(100, true),
        "state",
        "batch",
    );
    assert_eq!(result.unwrap_err().to_string(), "UUID cannot be empty");
}

struct TakingSink {
    requests: Rc<RefCell<Vec<usize>>>,
    fail_with: Option<String>,
}

impl BigQueryInserter for TakingSink {
    fn insert(
        &mut self,
        _project_id: &str,
        _dataset: &str,
        _table: &str,
        request: &InsertAllRequest,
    ) -> Result<InsertAllResponse, Failure> {
        self.requests.borrow_mut().push(request.rows.len());
        match &self.fail_with {
            Some(message) => Err(Failure::new(message)),
            None => Ok(InsertAllResponse { kind: String::new(), insert_errors: None }),
        }
    }
}

struct TakingFactory {
    requests: Rc<RefCell<Vec<usize>>>,
    fail_with: Option<String>,
}

impl TakingFactory {
    fn new(fail_with: Option<&str>) -> Self {
        TakingFactory {
            requests: Rc::new(RefCell::new(vec![])),
            fail_with: fail_with.map(|s| s.to_string()),
        }
    }
}

impl BigQueryClientFactory for TakingFactory {
    type Client = TakingSink;

    fn create_client(&mut self) -> Result<TakingSink, Failure> {
        Ok(TakingSink { requests: self.requests.clone(), fail_with: self.fail_with.clone() })
    }
}

struct NoSleep;

impl Sleeper for NoSleep {
    fn sleep_ms(&mut self, _ms: u64) {}
}

#[test]
fn the_upload_repository_counts_every_record() {
    let factory = TakingFactory::new(None);
    let requests = factory.requests.clone();
    let mut repository = BigQueryUploadRepository::new(factory, NoSleep, config(2, true));
    let batch = UploadBatch::new(vec![
        create_test_log("a"),
        create_test_log("b"),
        create_test_log("c"),
    ]);
    let result = repository.upload_batch(&batch).unwrap();
    assert_eq!(result.uploaded_count, 3);
    assert_eq!(result.failed_count, 0);
    assert_eq!(result.uploaded_uuids, vec!["a", "b", "c"]);
    assert!(result.is_success());
    assert_eq!(*requests.borrow(), vec![2, 1]);

    let empty = repository.upload(&UploadBatch::new(vec![])).unwrap();
    assert_eq!(empty.uploaded_count, 0);
    assert_eq!(empty.failed_count, 0);
}

#[test]
fn the_upload_repository_hands_on_the_failure() {
    let mut repository =
        BigQueryUploadRepository::new(TakingFactory::new(Some("Authentication failed")), NoSleep, config(2, true));
    let batch = UploadBatch::new(vec![create_test_log("a")]);
    let failure = repository.upload_batch(&batch).unwrap_err();
    assert_eq!(
        failure.to_string(),
        "Failed to upload batch | Failed to upload to BigQuery | Authentication failed"
    );
}

fn args(dry_run: bool, all_projects: bool) -> Args {
    Args { dry_run, auto: false, manual: false, all_projects, config: "config.json".to_string() }
}

#[test]
fn test_workflow_execute_dry_run_success() {
    let mut logs = MockLogRepository::new(&["/logs/test-session.jsonl"], &["id-0", "id-1"]);
    let mut states = MockStateRepository::new();
    let mut factory = TakingFactory::new(None);
    let outcome = SessionUploadWorkflow::new()
        .execute(
            &args(true, false),
            &config(100, true),
            "/home/user/projects",
            "/work/app",
            "state.json",
            &mut logs,
            &mut states,
            &mut factory,
            &mut NoSleep,
        )
        .unwrap();
    match outcome {
        WorkflowOutcome::DryRun(ids) => assert_eq!(ids, vec!["id-0", "id-1"]),
        other => panic!("unexpected {:?}", other),
    }
    assert_eq!(*logs.asked.borrow(), vec!["/home/user/projects/-work-app".to_string()]);
    assert!(factory.requests.borrow().is_empty());
    assert_eq!(*states.saves.borrow(), 0);
}

#[test]
fn test_workflow_execute_empty_log_directory() {
    let mut logs = MockLogRepository::new(&[], &[]);
    let mut states = MockStateRepository::new();
    let mut factory = TakingFactory::new(None);
    let outcome = SessionUploadWorkflow::new()
        .execute(
            &args(true, true),
            &config(100, true),
            "/home/user/projects",
            "/work/app",
            "state.json",
            &mut logs,
            &mut states,
            &mut factory,
            &mut NoSleep,
        )
        .unwrap();
    assert!(matches!(outcome, WorkflowOutcome::NoLogFiles));
    assert_eq!(*logs.asked.borrow(), vec!["/home/user/projects".to_string()]);
}

#[test]
fn a_run_of_the_workflow_uploads_and_records() {
    let mut logs = MockLogRepository::new(&["/logs/a.jsonl"], &["id-0", "id-1", "id-2"]);
    let mut states = states_knowing(&["id-1"]);
    states.state.borrow_mut().total_uploaded = 1;
    let mut factory = TakingFactory::new(None);
    let outcome = SessionUploadWorkflow::new()
        .execute(
            &args(false, false),
            &config(100, true),
            "/p",
            "/c",
            "state.json",
            &mut logs,
            &mut states,
            &mut factory,
            &mut NoSleep,
        )
        .unwrap();
    match outcome {
        WorkflowOutcome::Uploaded { uuids, total_uploaded } => {
            assert_eq!(uuids, vec!["id-0", "id-2"]);
            assert_eq!(total_uploaded, 3);
        }
        other => panic!("unexpected {:?}", other),
    }
    assert_eq!(*factory.requests.borrow(), vec![2]);
    let state = states.get_state();
    assert_eq!(state.total_uploaded, 3);
    assert_eq!(state.uploaded_uuids.len(), 3);
    assert!(state.last_upload_batch_id.is_some());
    assert_eq!(*states.saves.borrow(), 1);

    // A second run finds nothing new.
    let outcome = SessionUploadWorkflow::new()
        .execute(
            &args(false, false),
            &config(100, true),
            "/p",
            "/c",
            "state.json",
            &mut logs,
            &mut states,
            &mut factory,
            &mut NoSleep,
        )
        .unwrap();
    assert!(matches!(outcome, WorkflowOutcome::NoNewRecords));
    assert_eq!(states.get_state().total_uploaded, 3);
    assert_eq!(*states.saves.borrow(), 1);
}

#[test]
fn a_failed_upload_leaves_the_state() {
    let mut logs = MockLogRepository::new(&["/logs/a.jsonl"], &["id-0"]);
    let mut states = MockStateRepository::new();
    let mut factory = TakingFactory::new(Some("Authentication failed"));
    let result = SessionUploadWorkflow::new().execute(
        &args(false, false),
        &config(100, true),
        "/p",
        "/c",
        "state.json",
        &mut logs,
        &mut states,
        &mut factory,
        &mut NoSleep,
    );
    assert!(result.unwrap_err().to_string().contains("Authentication failed"));
    assert_eq!(*states.saves.borrow(), 0);
    assert!(states.get_state().uploaded_uuids.is_empty());
}
