//! From what was read to what is uploaded: metadata is attached, and what
//! was uploaded before is left out.

use vstd::prelude::*;
use crate::config::UploadConfig;
use crate::deduplication::{lemma_not_uploaded, not_uploaded, DeduplicationService};
use crate::failure::Failure;
use crate::log_repository::LogRepository;
use crate::session_log::{LogMetadata, SessionLog, SessionLogError, SessionLogInput};
use crate::state_repository::StateRepository;
use crate::system::{current_timestamp, local_hostname};
use crate::uuid_set::UuidSet;

verus! {

/// The record that is made of what was read and the metadata of the upload.
pub open spec fn with_metadata(input: SessionLogInput, metadata: LogMetadata) -> SessionLog {
    SessionLog {
        uuid: input.uuid,
        timestamp: input.timestamp,
        session_id: input.session_id,
        agent_id: input.agent_id,
        is_sidechain: input.is_sidechain,
        parent_uuid: input.parent_uuid,
        user_type: input.user_type,
        message_type: input.message_type,
        slug: input.slug,
        request_id: input.request_id,
        cwd: input.cwd,
        git_branch: input.git_branch,
        version: input.version,
        message: input.message,
        tool_use_result: input.tool_use_result,
        metadata,
    }
}

/// Whether a record that was read is taken: always without deduplication,
/// and with it unless its id is known.
pub open spec fn is_taken(input: SessionLogInput, known: Set<Seq<char>>, deduplicate: bool) -> bool {
    !(deduplicate && known.contains(input.uuid@))
}

/// The records that are made of `inputs`: those that are taken, in their
/// order, each with the metadata attached.
pub open spec fn records_of(
    inputs: Seq<SessionLogInput>,
    metadata: LogMetadata,
    known: Set<Seq<char>>,
    deduplicate: bool,
) -> Seq<SessionLog> {
    inputs.filter(|input: SessionLogInput| is_taken(input, known, deduplicate)).map_values(
        |input: SessionLogInput| with_metadata(input, metadata),
    )
}

/// Attaches `metadata` to what was read. The id is not looked at.
pub fn attach_metadata(input: SessionLogInput, metadata: LogMetadata) -> (log: SessionLog)
    ensures
        log == with_metadata(input, metadata),
{
    SessionLog {
        uuid: input.uuid,
        timestamp: input.timestamp,
        session_id: input.session_id,
        agent_id: input.agent_id,
        is_sidechain: input.is_sidechain,
        parent_uuid: input.parent_uuid,
        user_type: input.user_type,
        message_type: input.message_type,
        slug: input.slug,
        request_id: input.request_id,
        cwd: input.cwd,
        git_branch: input.git_branch,
        version: input.version,
        message: input.message,
        tool_use_result: input.tool_use_result,
        metadata,
    }
}

/// The records of one file that are to be uploaded: of the records `inputs`
/// that were read, those that are taken, each with a copy of `metadata`.
pub fn build_records(
    inputs: &Vec<SessionLogInput>,
    metadata: &LogMetadata,
    known: &UuidSet,
    deduplicate: bool,
) -> (records: Vec<SessionLog>)
    ensures
        records@ == records_of(inputs@, *metadata, known@, deduplicate),
{
    let ghost take = |input: SessionLogInput| is_taken(input, known@, deduplicate);
    let ghost attach = |input: SessionLogInput| with_metadata(input, *metadata);
    let n = inputs.len();
    let mut records: Vec<SessionLog> = Vec::new();
    let mut i: usize = 0;
    proof {
        reveal(Seq::filter);
        assert(inputs@.take(0) =~= Seq::<SessionLogInput>::empty());
        assert(records@ =~= inputs@.take(0).filter(take).map_values(attach));
    }
    while i < n
        invariant
            n == inputs.len(),
            i <= n,
            take == |input: SessionLogInput| is_taken(input, known@, deduplicate),
            attach == |input: SessionLogInput| with_metadata(input, *metadata),
            records@ == inputs@.take(i as int).filter(take).map_values(attach),
        decreases n - i,
    {
        let ghost before = inputs@.take(i as int).filter(take);
        proof {
            reveal(Seq::filter);
            assert(inputs@.take(i + 1).drop_last() =~= inputs@.take(i as int));
            assert(inputs@.take(i + 1).last() == inputs@[i as int]);
        }
        if !(deduplicate && known.contains(inputs[i].uuid.as_str())) {
            records.push(attach_metadata(inputs[i].clone(), metadata.clone()));
            proof {
                assert(inputs@.take(i + 1).filter(take) == before.push(inputs@[i as int]));
                assert(records@ =~= before.push(inputs@[i as int]).map_values(attach));
            }
        }
        i += 1;
    }
    proof {
        assert(inputs@.take(n as int) =~= inputs@);
    }
    records
}

/// Makes a record of what was read from `source_file`, for the upload
/// `batch_id` under `config`. The name of the host and the time come from the
/// system; where the host has no name, it is called "unknown". The id must
/// not be empty.
pub fn convert_input_to_session_log(
    input: SessionLogInput,
    source_file: &str,
    config: &UploadConfig,
    batch_id: &str,
) -> (made: Result<SessionLog, SessionLogError>)
    ensures
        input.uuid@.len() == 0 ==> made == Err::<SessionLog, SessionLogError>(
            SessionLogError::EmptyUuid,
        ),
        input.uuid@.len() > 0 ==> made is Ok,
        made matches Ok(log) ==> {
            &&& exists|metadata: LogMetadata| log == with_metadata(input, metadata)
            &&& log.metadata.developer_id == config.developer_id
            &&& log.metadata.user_email == config.user_email
            &&& log.metadata.project_name == config.project_name
            &&& log.metadata.upload_batch_id@ == batch_id@
            &&& log.metadata.source_file@ == source_file@
        },
{
    let hostname = match local_hostname() {
        Some(name) => name,
        None => "unknown".to_owned(),
    };
    let metadata = LogMetadata {
        developer_id: config.developer_id.clone(),
        hostname,
        user_email: config.user_email.clone(),
        project_name: config.project_name.clone(),
        upload_batch_id: batch_id.to_owned(),
        source_file: source_file.to_owned(),
        uploaded_at: current_timestamp(),
    };
    let made = SessionLog::new(
        input.uuid,
        input.timestamp,
        input.session_id,
        input.agent_id,
        input.is_sidechain,
        input.parent_uuid,
        input.user_type,
        input.message_type,
        input.slug,
        input.request_id,
        input.cwd,
        input.git_branch,
        input.version,
        input.message,
        input.tool_use_result,
        metadata,
    );
    proof {
        if made is Ok {
            assert(made->Ok_0 == with_metadata(input, metadata));
        }
    }
    made
}

/// The record is one that a run for the upload `batch_id` under `config` makes
/// of the files `file_paths`: it has an id, its metadata names the developer,
/// the address and the project of the configuration and the batch of the
/// upload, and its source is one of the files.
pub open spec fn is_stamped(
    log: SessionLog,
    config: UploadConfig,
    batch_id: Seq<char>,
    file_paths: Seq<String>,
) -> bool {
    &&& log.uuid@.len() > 0
    &&& log.metadata.developer_id == config.developer_id
    &&& log.metadata.user_email == config.user_email
    &&& log.metadata.project_name == config.project_name
    &&& log.metadata.upload_batch_id@ == batch_id
    &&& exists|f: int|
        0 <= f < file_paths.len() && log.metadata.source_file@ == (#[trigger] file_paths[f])@
}

/// Finds the log files of a directory.
pub struct DiscoverLogsUseCase<R: LogRepository> {
    log_repository: R,
}

impl<R: LogRepository> DiscoverLogsUseCase<R> {
    /// The repository that finds the files.
    pub closed spec fn log_repository(self) -> R {
        self.log_repository
    }

    /// A use case over the given repository.
    pub fn new(log_repository: R) -> (use_case: Self)
        ensures
            use_case.log_repository() == log_repository,
    {
        DiscoverLogsUseCase { log_repository }
    }

    /// The paths of the log files under `log_dir`, as the repository finds them.
    pub fn execute(&mut self, log_dir: &str) -> Result<Vec<String>, Failure> {
        self.log_repository.discover_log_files(log_dir)
    }
}

/// Reads log files and makes the records that are to be uploaded.
pub struct ParseLogsUseCase<L: LogRepository, S: StateRepository> {
    log_repository: L,
    state_repository: S,
}

impl<L: LogRepository, S: StateRepository> ParseLogsUseCase<L, S> {
    /// The repository that reads the files.
    pub closed spec fn log_repository(self) -> L {
        self.log_repository
    }

    /// The repository that keeps the state.
    pub closed spec fn state_repository(self) -> S {
        self.state_repository
    }

    /// A use case over the given repositories.
    pub fn new(log_repository: L, state_repository: S) -> (use_case: Self)
        ensures
            use_case.log_repository() == log_repository,
            use_case.state_repository() == state_repository,
    {
        ParseLogsUseCase { log_repository, state_repository }
    }

    /// The records of the files `file_paths`, in the order of the files and
    /// within a file in its order, each with the metadata of the upload
    /// `batch_id`; where the configuration asks for it, without those that the
    /// state under `state_path` knows. A record with an empty id ends the run
    /// with a failure, as does a state or a file that cannot be read. Whether
    /// the state and the files can be read is up to the repositories; every
    /// record that comes back is stamped as [`is_stamped`] says, and without
    /// files none comes back.
    pub fn execute(
        &mut self,
        file_paths: &Vec<String>,
        config: &UploadConfig,
        state_path: &str,
        batch_id: &str,
    ) -> (parsed: Result<Vec<SessionLog>, Failure>)
        ensures
            parsed matches Ok(logs) ==> forall|i: int|
                0 <= i < logs@.len() ==> is_stamped(
                    #[trigger] logs@[i],
                    *config,
                    batch_id@,
                    file_paths@,
                ),
            file_paths@.len() == 0 ==> (parsed matches Ok(logs) ==> logs@.len() == 0),
    {
        let state = match self.state_repository.load(state_path) {
            Ok(state) => state,
            Err(failure) => {
                return Err(failure);
            },
        };
        let mut all_logs: Vec<SessionLog> = Vec::new();
        let n = file_paths.len();
        let mut f: usize = 0;
        while f < n
            invariant
                n == file_paths.len(),
                f <= n,
                n == 0 ==> all_logs@.len() == 0,
                forall|i: int|
                    0 <= i < all_logs@.len() ==> is_stamped(
                        #[trigger] all_logs@[i],
                        *config,
                        batch_id@,
                        file_paths@,
                    ),
            decreases n - f,
        {
            let path = file_paths[f].as_str();
            let inputs = match self.log_repository.parse_log_file(path) {
                Ok(inputs) => inputs,
                Err(failure) => {
                    return Err(failure);
                },
            };
            let m = inputs.len();
            let mut k: usize = 0;
            while k < m
                invariant
                    m == inputs.len(),
                    k <= m,
                    f < file_paths.len(),
                    path@ == file_paths@[f as int]@,
                    forall|i: int|
                        0 <= i < all_logs@.len() ==> is_stamped(
                            #[trigger] all_logs@[i],
                            *config,
                            batch_id@,
                            file_paths@,
                        ),
                decreases m - k,
            {
                match convert_input_to_session_log(inputs[k].clone(), path, config, batch_id) {
                    Ok(log) => {
                        proof {
                            assert(log.metadata.source_file@ == file_paths@[f as int]@);
                            assert(is_stamped(log, *config, batch_id@, file_paths@));
                        }
                        let ghost before = all_logs@;
                        all_logs.push(log);
                        proof {
                            assert forall|i: int| 0 <= i < all_logs@.len() implies is_stamped(
                                #[trigger] all_logs@[i],
                                *config,
                                batch_id@,
                                file_paths@,
                            ) by {
                                if i < before.len() {
                                    assert(all_logs@[i] == before[i]);
                                }
                            }
                        }
                    },
                    Err(error) => {
                        let text = error.to_string();
                        return Err(Failure::new(text.as_str()));
                    },
                }
                k += 1;
            }
            f += 1;
        }
        let ghost all = all_logs@;
        let kept = DeduplicationService::filter_duplicates(
            all_logs,
            &state.uploaded_uuids,
            config.enable_deduplication,
        );
        proof {
            if config.enable_deduplication {
                lemma_not_uploaded(all, state.uploaded_uuids@);
                assert forall|i: int| 0 <= i < kept@.len() implies is_stamped(
                    #[trigger] kept@[i],
                    *config,
                    batch_id@,
                    file_paths@,
                ) by {
                    assert(all.contains(kept@[i]));
                    let at = choose|at: int| 0 <= at < all.len() && all[at] == kept@[i];
                    assert(is_stamped(all[at], *config, batch_id@, file_paths@));
                }
            }
        }
        Ok(kept)
    }
}

} // verus!
