//! One run of the uploader: what is new is uploaded, and what was uploaded is
//! recorded for the next run.

use vstd::prelude::*;
use crate::config::UploadConfig;
use crate::deduplication::{lemma_not_uploaded, DeduplicationService};
use crate::failure::Failure;
use crate::session_log::{uuids_of, SessionLog};
use crate::state_repository::StateRepository;
use crate::system::current_timestamp;
use crate::upload_batch::{batch_views, lemma_partition_concat, UploadBatch};
use crate::upload_repository::{UploadRepository, UploadResult};

verus! {

/// The outcome of a run: the outcomes of its batches put together.
#[derive(Debug, Clone)]
pub struct UploadSummary {
    /// How many records were credited.
    pub uploaded_count: usize,
    /// How many records were not.
    pub failed_count: usize,
    /// The ids of the credited records, in the order of the batches.
    pub uploaded_uuids: Vec<String>,
}

/// The sum of two counts, held at the largest count.
pub open spec fn capped_count(a: usize, b: usize) -> usize {
    if a + b <= usize::MAX {
        (a + b) as usize
    } else {
        usize::MAX
    }
}

fn add_counts(a: usize, b: usize) -> (sum: usize)
    ensures
        sum == capped_count(a, b),
{
    if b > usize::MAX - a {
        usize::MAX
    } else {
        a + b
    }
}

impl UploadSummary {
    /// The outcome of a run in which nothing was uploaded.
    pub fn empty() -> (summary: Self)
        ensures
            summary.uploaded_count == 0,
            summary.failed_count == 0,
            summary.uploaded_uuids@.len() == 0,
    {
        UploadSummary { uploaded_count: 0, failed_count: 0, uploaded_uuids: Vec::new() }
    }

    /// Adds the outcome of one batch: the counts are added up and the ids are
    /// appended.
    pub fn absorb(&mut self, result: UploadResult)
        ensures
            final(self).uploaded_count == capped_count(
                old(self).uploaded_count,
                result.uploaded_count,
            ),
            final(self).failed_count == capped_count(old(self).failed_count, result.failed_count),
            final(self).uploaded_uuids@ == old(self).uploaded_uuids@ + result.uploaded_uuids@,
    {
        let mut uuids = result.uploaded_uuids;
        self.uploaded_count = add_counts(self.uploaded_count, result.uploaded_count);
        self.failed_count = add_counts(self.failed_count, result.failed_count);
        self.uploaded_uuids.append(&mut uuids);
    }
}

/// A copy of each text of `texts`.
pub fn copy_texts(list: &Vec<String>) -> (copy: Vec<String>)
    ensures
        copy@ == list@,
{
    let n = list.len();
    let mut copy: Vec<String> = Vec::new();
    let mut i: usize = 0;
    while i < n
        invariant
            n == list.len(),
            i <= n,
            copy@ == list@.take(i as int),
        decreases n - i,
    {
        copy.push(list[i].clone());
        proof {
            assert(copy@ =~= list@.take(i + 1));
        }
        i += 1;
    }
    proof {
        assert(list@.take(n as int) =~= list@);
    }
    copy
}

/// Uploads records and keeps the upload state.
pub struct UploadLogsUseCase<U: UploadRepository, S: StateRepository> {
    upload_repository: U,
    state_repository: S,
}

impl<U: UploadRepository, S: StateRepository> UploadLogsUseCase<U, S> {
    /// A use case over the given repositories.
    pub fn new(upload_repository: U, state_repository: S) -> (use_case: Self)
        ensures
            use_case.upload_repository() == upload_repository,
            use_case.state_repository() == state_repository,
    {
        UploadLogsUseCase { upload_repository, state_repository }
    }

    /// The repository that uploads.
    pub closed spec fn upload_repository(self) -> U {
        self.upload_repository
    }

    /// The repository that keeps the state.
    pub closed spec fn state_repository(self) -> S {
        self.state_repository
    }

    /// Gives up the use case for its repositories.
    pub fn into_repositories(self) -> (parts: (U, S))
        ensures
            parts.0 == self.upload_repository(),
            parts.1 == self.state_repository(),
    {
        (self.upload_repository, self.state_repository)
    }

    /// Uploads the records of `logs` that are new and records them under
    /// `state_path` as uploaded by the batch `batch_id`.
    ///
    /// Without records nothing is done at all. Otherwise the state is loaded
    /// and, where the configuration asks for it, the records that it knows are
    /// left out. What is left is cut into batches of `config.batch_size`
    /// records, which are uploaded one after the other; the first failure ends
    /// the run, and nothing is recorded then. Where ids were credited, the
    /// state is loaded afresh, the ids are merged into it, and it is saved.
    ///
    /// The summary of a run that succeeds accounts for every record that was
    /// not left out: each is counted once, as uploaded or as failed, as many
    /// are counted as uploaded as ids are listed, and every id that is listed
    /// is the id of a record of `logs`. Without deduplication no record is
    /// left out.
    pub fn execute(
        &mut self,
        logs: Vec<SessionLog>,
        config: &UploadConfig,
        state_path: &str,
        batch_id: &str,
    ) -> (run: Result<UploadSummary, Failure>)
        ensures
            logs@.len() == 0 ==> (run matches Ok(summary) && summary.uploaded_count == 0
                && summary.failed_count == 0 && summary.uploaded_uuids@.len() == 0),
            run matches Ok(summary) ==> {
                &&& summary.uploaded_count == summary.uploaded_uuids@.len()
                &&& summary.uploaded_count + summary.failed_count <= logs@.len()
                &&& !config.enable_deduplication ==> summary.uploaded_count
                    + summary.failed_count == logs@.len()
                &&& forall|i: int|
                    0 <= i < summary.uploaded_uuids@.len() ==> uuids_of(logs@).contains(
                        (#[trigger] summary.uploaded_uuids@[i])@,
                    )
            },
    {
        let mut summary = UploadSummary::empty();
        if logs.len() == 0 {
            return Ok(summary);
        }
        let state = match self.state_repository.load(state_path) {
            Ok(state) => state,
            Err(failure) => {
                return Err(failure);
            },
        };
        let fresh = DeduplicationService::filter_duplicates(
            logs,
            &state.uploaded_uuids,
            config.enable_deduplication,
        );
        proof {
            if config.enable_deduplication {
                lemma_not_uploaded(logs@, state.uploaded_uuids@);
            }
            assert forall|k: int| 0 <= k < fresh@.len() implies logs@.contains(
                #[trigger] fresh@[k],
            ) by {}
        }
        if fresh.len() == 0 {
            return Ok(summary);
        }
        let ghost kept = fresh@;
        let batches = UploadBatch::new(fresh).split_by_size(config.batch_size);
        let ghost chunks = batch_views(batches@);
        proof {
            lemma_partition_concat(kept, config.batch_size as nat);
            assert(chunks.take(0).flatten() =~= Seq::<SessionLog>::empty());
        }
        let n = batches.len();
        let mut i: usize = 0;
        while i < n
            invariant
                n == batches.len(),
                i <= n,
                0 < logs@.len() <= usize::MAX,
                chunks == batch_views(batches@),
                chunks.flatten() == kept,
                kept.len() <= logs@.len(),
                !config.enable_deduplication ==> kept == logs@,
                forall|k: int| 0 <= k < kept.len() ==> logs@.contains(#[trigger] kept[k]),
                summary.uploaded_count == summary.uploaded_uuids@.len(),
                summary.uploaded_count + summary.failed_count == chunks.take(i as int).flatten().len(),
                forall|k: int|
                    0 <= k < summary.uploaded_uuids@.len() ==> uuids_of(logs@).contains(
                        (#[trigger] summary.uploaded_uuids@[k])@,
                    ),
            decreases n - i,
        {
            let ghost before = summary.uploaded_uuids@;
            let ghost uploaded = summary.uploaded_count;
            let ghost failed = summary.failed_count;
            proof {
                lemma_chunk_in_whole(chunks, i as int);
            }
            match self.upload_repository.upload_batch(&batches[i]) {
                Ok(result) => {
                    proof {
                        let batch = batches@[i as int]@;
                        assert(chunks[i as int] == batch);
                        assert forall|k: int|
                            0 <= k < result.uploaded_uuids@.len() implies uuids_of(logs@).contains(
                            (#[trigger] result.uploaded_uuids@[k])@,
                        ) by {
                            let id = result.uploaded_uuids@[k]@;
                            assert(uuids_of(batch).contains(id));
                            let j = choose|j: int| 0 <= j < batch.len() && uuids_of(batch)[j] == id;
                            assert(kept.contains(batch[j]));
                            let at = choose|at: int| 0 <= at < kept.len() && kept[at] == batch[j];
                            assert(logs@.contains(kept[at]));
                            let origin = choose|origin: int|
                                0 <= origin < logs@.len() && logs@[origin] == kept[at];
                            assert(uuids_of(logs@)[origin] == id);
                        }
                    }
                    proof {
                        assert(result.uploaded_count + result.failed_count == chunks[i as int].len());
                        assert(uploaded + failed + chunks[i as int].len() == chunks.take(
                            i + 1,
                        ).flatten().len());
                        assert(chunks.take(i + 1).flatten().len() <= usize::MAX);
                    }
                    summary.absorb(result);
                    proof {
                        assert(summary.uploaded_count == uploaded + result.uploaded_count);
                        assert(summary.failed_count == failed + result.failed_count);
                        assert(summary.uploaded_uuids@.len() == before.len()
                            + result.uploaded_uuids@.len());
                        assert forall|k: int|
                            0 <= k < summary.uploaded_uuids@.len() implies uuids_of(logs@).contains(
                            (#[trigger] summary.uploaded_uuids@[k])@,
                        ) by {
                            if k < before.len() {
                                assert(summary.uploaded_uuids@[k] == before[k]);
                            } else {
                                assert(summary.uploaded_uuids@[k] == result.uploaded_uuids@[k
                                    - before.len()]);
                            }
                        }
                    }
                },
                Err(failure) => {
                    return Err(failure);
                },
            }
            i += 1;
        }
        proof {
            assert(chunks.take(n as int) =~= chunks);
        }
        if summary.uploaded_uuids.len() > 0 {
            let mut state = match self.state_repository.load(state_path) {
                Ok(state) => state,
                Err(failure) => {
                    return Err(failure);
                },
            };
            state.merge_uploaded(
                copy_texts(&summary.uploaded_uuids),
                batch_id.to_owned(),
                current_timestamp(),
            );
            match self.state_repository.save(state_path, &state) {
                Ok(()) => {},
                Err(failure) => {
                    return Err(failure);
                },
            }
        }
        Ok(summary)
    }
}

/// A chunk of a list of chunks lies in what the chunks give when they are
/// put together: the chunks before it and the chunk itself are no longer
/// than the whole, the chunks up to and with it are the chunks before it
/// followed by it, and each of its items is an item of the whole.
pub proof fn lemma_chunk_in_whole<T>(chunks: Seq<Seq<T>>, i: int)
    requires
        0 <= i < chunks.len(),
    ensures
        chunks.take(i + 1).flatten() == chunks.take(i).flatten() + chunks[i],
        chunks.take(i + 1).flatten().len() <= chunks.flatten().len(),
        forall|j: int| 0 <= j < chunks[i].len() ==> chunks.flatten().contains(#[trigger] chunks[i][j]),
{
    let head = chunks.take(i);
    let upto = chunks.take(i + 1);
    let rest = chunks.skip(i + 1);
    assert(head.push(chunks[i]) =~= upto);
    head.lemma_flatten_push(chunks[i]);
    assert(upto + rest =~= chunks);
    vstd::seq_lib::lemma_flatten_concat(upto, rest);
    assert forall|j: int| 0 <= j < chunks[i].len() implies chunks.flatten().contains(
        #[trigger] chunks[i][j],
    ) by {
        assert(chunks.flatten()[head.flatten().len() + j] == chunks[i][j]);
    }
}

} // verus!
