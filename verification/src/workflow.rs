//! The whole run: the logs of a project are found, read, uploaded and recorded.

use vstd::prelude::*;
use crate::batch_uploader::upload_to_bigquery_with_factory;
use crate::client::{BigQueryClientFactory, Sleeper};
use crate::config::Config;
use crate::deduplication::DeduplicationService;
use crate::failure::{texts, Failure};
use crate::log_repository::LogRepository;
use crate::parse_logs::build_records;
use crate::session_log::{LogMetadata, SessionLog};
use crate::state_repository::StateRepository;
use crate::system::{current_timestamp, expand_key_path, local_hostname, new_batch_id, push_char};
use crate::text::chars_of;
use crate::upload_logs::copy_texts;

verus! {

/// What the uploader was started with.
#[derive(Debug, Clone)]
pub struct Args {
    /// Nothing is sent; what would be sent is listed.
    pub dry_run: bool,
    /// Started by the hook at the end of a session.
    pub auto: bool,
    /// Started by the user.
    pub manual: bool,
    /// The logs of all projects are uploaded, not only of the current one.
    pub all_projects: bool,
    /// The path of the configuration file.
    pub config: String,
}

/// The name under which the logs of the project at `path` are kept: the path
/// with every slash replaced by a hyphen.
pub open spec fn project_name(path: Seq<char>) -> Seq<char> {
    path.map_values(
        |c: char|
            if c == '/' {
                '-'
            } else {
                c
            },
    )
}

/// The directory under `projects_dir` that holds the logs of the project at `cwd`.
pub open spec fn project_dir(projects_dir: Seq<char>, cwd: Seq<char>) -> Seq<char> {
    projects_dir + "/"@ + project_name(cwd)
}

/// The name under which the logs of the project at `path` are kept.
pub fn path_to_project_name(path: &str) -> (name: String)
    ensures
        name@ == project_name(path@),
{
    let chars = chars_of(path);
    let n = chars.len();
    let mut name = String::new();
    let mut i: usize = 0;
    while i < n
        invariant
            n == chars.len(),
            chars@ == path@,
            i <= n,
            name@ == project_name(path@.take(i as int)),
        decreases n - i,
    {
        let c = if chars[i] == '/' {
            '-'
        } else {
            chars[i]
        };
        push_char(&mut name, c);
        proof {
            assert(name@ =~= project_name(path@.take(i + 1)));
        }
        i += 1;
    }
    proof {
        assert(path@.take(n as int) =~= path@);
    }
    name
}

/// How a run of the workflow ended.
#[derive(Debug)]
pub enum WorkflowOutcome {
    /// No log file was found.
    NoLogFiles,
    /// Log files were found, but no record in them that is to be uploaded.
    NoNewRecords,
    /// A dry run: the ids of the records that would have been sent.
    DryRun(Vec<String>),
    /// The ids that were credited, and the count of uploaded records after the run.
    Uploaded { uuids: Vec<String>, total_uploaded: u64 },
}

/// The upload of the session logs of a machine.
pub struct SessionUploadWorkflow;

impl SessionUploadWorkflow {
    /// A workflow.
    pub fn new() -> Self {
        SessionUploadWorkflow
    }

    /// The directory whose logs a run with `args` uploads: `projects_dir`,
    /// which holds the logs of all projects, where `args` asks for all of
    /// them; else the directory of the project at `cwd` under it.
    pub fn log_dir(&self, args: &Args, projects_dir: &str, cwd: &str) -> (dir: String)
        ensures
            args.all_projects ==> dir@ == projects_dir@,
            !args.all_projects ==> dir@ == project_dir(projects_dir@, cwd@),
    {
        let mut dir = projects_dir.to_owned();
        if !args.all_projects {
            dir.append("/");
            let name = path_to_project_name(cwd);
            dir.append(name.as_str());
        }
        dir
    }
}

impl SessionUploadWorkflow {
    /// One run: the log files under the directory of [`Self::log_dir`] are
    /// found and read, the records that the state under `state_path` does not
    /// know are uploaded, and the state is brought up to date.
    ///
    /// The run ends early, with nothing sent and nothing recorded, where no
    /// file is found or no record is left. In a dry run nothing is sent and
    /// nothing is recorded either. Otherwise the records are uploaded over
    /// connections of `factory`; a failure ends the run and leaves the state
    /// as it was. Where ids were credited the state is loaded afresh, the ids
    /// are merged into it, the count grows by the number of ids that were new,
    /// and the state is saved.
    ///
    /// Whether the state and the files can be read and the records be sent
    /// is up to the repositories and the factory. A dry run that comes back
    /// lists at least one id: without a record to send, the run ends early.
    pub fn execute<L: LogRepository, S: StateRepository, F: BigQueryClientFactory, P: Sleeper>(
        &self,
        args: &Args,
        config: &Config,
        projects_dir: &str,
        cwd: &str,
        state_path: &str,
        log_repository: &mut L,
        state_repository: &mut S,
        factory: &mut F,
        sleeper: &mut P,
    ) -> (run: Result<WorkflowOutcome, Failure>)
        ensures
            run matches Ok(WorkflowOutcome::DryRun(ids)) ==> args.dry_run && ids@.len() > 0,
            run matches Ok(WorkflowOutcome::Uploaded { .. }) ==> !args.dry_run,
    {
        let state = match state_repository.load(state_path) {
            Ok(state) => state,
            Err(failure) => {
                return Err(failure);
            },
        };
        let log_dir = expand_key_path(self.log_dir(args, projects_dir, cwd).as_str());
        let log_files = match log_repository.discover_log_files(log_dir.as_str()) {
            Ok(files) => files,
            Err(failure) => {
                return Err(failure);
            },
        };
        if log_files.len() == 0 {
            return Ok(WorkflowOutcome::NoLogFiles);
        }
        let mut all_logs: Vec<SessionLog> = Vec::new();
        let n = log_files.len();
        let mut f: usize = 0;
        while f < n
            invariant
                n == log_files.len(),
                f <= n,
            decreases n - f,
        {
            let path = log_files[f].as_str();
            let inputs = match log_repository.parse_log_file(path) {
                Ok(inputs) => inputs,
                Err(failure) => {
                    return Err(failure);
                },
            };
            let hostname = match local_hostname() {
                Some(name) => name,
                None => {
                    return Err(Failure::new("Failed to get hostname"));
                },
            };
            let metadata = LogMetadata {
                developer_id: config.developer_id.clone(),
                hostname,
                user_email: config.user_email.clone(),
                project_name: config.project_name.clone(),
                upload_batch_id: new_batch_id(),
                source_file: path.to_owned(),
                uploaded_at: current_timestamp(),
            };
            let mut records = build_records(
                &inputs,
                &metadata,
                &state.uploaded_uuids,
                config.enable_deduplication,
            );
            all_logs.append(&mut records);
            f += 1;
        }
        if all_logs.len() == 0 {
            return Ok(WorkflowOutcome::NoNewRecords);
        }
        if args.dry_run {
            let ids = DeduplicationService::extract_uuids(&all_logs);
            proof {
                assert(texts(ids@).len() == ids@.len());
            }
            return Ok(WorkflowOutcome::DryRun(ids));
        }
        let uuids = match upload_to_bigquery_with_factory(factory, sleeper, config, all_logs, false) {
            Ok(uuids) => uuids,
            Err(error) => {
                return Err(error.to_failure());
            },
        };
        let mut total_uploaded = state.total_uploaded;
        if uuids.len() > 0 {
            let mut latest = match state_repository.load(state_path) {
                Ok(state) => state,
                Err(failure) => {
                    return Err(failure);
                },
            };
            latest.merge_uploaded(copy_texts(&uuids), new_batch_id(), current_timestamp());
            match state_repository.save(state_path, &latest) {
                Ok(()) => {},
                Err(failure) => {
                    return Err(failure);
                },
            }
            total_uploaded = latest.total_uploaded;
        }
        Ok(WorkflowOutcome::Uploaded { uuids, total_uploaded })
    }
}

impl Default for SessionUploadWorkflow {
    fn default() -> Self {
        SessionUploadWorkflow::new()
    }
}

} // verus!
