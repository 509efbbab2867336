//! Uploading batches to the sink through the upload engine.

use vstd::prelude::*;
use crate::batch_uploader::{
    credited_ids, credited_places, is_credit_of, lemma_credit_bounded, lemma_credit_in_order,
    upload_to_bigquery_with_factory,
};
use crate::client::{BigQueryClientFactory, Sleeper};
use crate::config::Config;
use crate::engine::{credit_ok, Chunk};
use crate::failure::{is_upload_failure, texts, Failure, UploadError};
use crate::session_log::uuids_of;
use crate::upload_batch::{copy_logs, UploadBatch};
use crate::upload_repository::{UploadRepository, UploadResult};

verus! {

/// Uploads batches over connections of a factory.
pub struct BigQueryUploadRepository<F: BigQueryClientFactory, P: Sleeper> {
    factory: F,
    sleeper: P,
    config: Config,
}

impl<F: BigQueryClientFactory, P: Sleeper> BigQueryUploadRepository<F, P> {
    /// The factory of the connections.
    pub closed spec fn factory(self) -> F {
        self.factory
    }

    /// What the repository waits with.
    pub closed spec fn sleeper(self) -> P {
        self.sleeper
    }

    /// What the repository uploads under.
    pub closed spec fn config(self) -> Config {
        self.config
    }

    /// A repository that uploads under `config`.
    pub fn new(factory: F, sleeper: P, config: Config) -> (repository: Self)
        ensures
            repository.factory() == factory,
            repository.sleeper() == sleeper,
            repository.config() == config,
    {
        BigQueryUploadRepository { factory, sleeper, config }
    }

    /// Gives up the repository for the factory and the sleeper.
    pub fn into_parts(self) -> (parts: (F, P))
        ensures
            parts.0 == self.factory(),
            parts.1 == self.sleeper(),
    {
        (self.factory, self.sleeper)
    }

    /// Uploads `batch`. Every record of the batch is counted, either as
    /// uploaded, with its id in the result, or as failed.
    pub fn upload(&mut self, batch: &UploadBatch) -> (uploaded: Result<UploadResult, UploadError>)
        ensures
            batch@.len() == 0 ==> uploaded is Ok,
            uploaded matches Ok(result) ==> {
                &&& result.uploaded_count == result.uploaded_uuids@.len()
                &&& result.uploaded_count + result.failed_count == batch@.len()
                &&& is_credit_of(texts(result.uploaded_uuids@), uuids_of(batch@))
            },
    {
        let logs = copy_logs(batch.logs(), 0, batch.len());
        proof {
            assert(logs@ =~= batch@);
        }
        match upload_to_bigquery_with_factory(
            &mut self.factory,
            &mut self.sleeper,
            &self.config,
            logs,
            false,
        ) {
            Ok(uuids) => {
                proof {
                    let credited = choose|credited: Seq<Chunk>| #[trigger]
                        credit_ok(credited, uuids_of(batch@).len() as int) && texts(uuids@)
                            == credited_ids(uuids_of(batch@), credited);
                    lemma_credit_bounded(uuids_of(batch@), credited);
                    assert(texts(uuids@).len() == uuids@.len());
                }
                let uploaded_count = uuids.len();
                let failed_count = batch.len() - uploaded_count;
                Ok(UploadResult::new(uploaded_count, failed_count, uuids))
            },
            Err(error) => Err(error),
        }
    }
}

impl<F: BigQueryClientFactory, P: Sleeper> UploadRepository for BigQueryUploadRepository<F, P> {
    /// Uploads `batch` as [`BigQueryUploadRepository::upload`] does. An upload
    /// that was given up comes back as the chain of its causes, which begins
    /// by saying that a batch failed and in what way.
    fn upload_batch(&mut self, batch: &UploadBatch) -> (uploaded: Result<UploadResult, Failure>)
        ensures
            batch@.len() == 0 ==> uploaded is Ok,
            uploaded matches Ok(result) ==> is_credit_of(
                texts(result.uploaded_uuids@),
                uuids_of(batch@),
            ),
            uploaded matches Err(failure) ==> is_upload_failure(failure@),
    {
        match self.upload(batch) {
            Ok(result) => {
                proof {
                    let ids = uuids_of(batch@);
                    let picked = texts(result.uploaded_uuids@);
                    let credited = choose|credited: Seq<Chunk>| #[trigger]
                        credit_ok(credited, ids.len() as int) && picked == credited_ids(
                            ids,
                            credited,
                        );
                    lemma_credit_in_order(ids, credited);
                    let places = credited_places(credited);
                    assert forall|i: int| 0 <= i < result.uploaded_uuids@.len() implies ids.contains(
                        (#[trigger] result.uploaded_uuids@[i])@,
                    ) by {
                        assert(picked[i] == ids[places[i]]);
                    }
                }
                Ok(result)
            },
            Err(error) => Err(error.to_failure()),
        }
    }
}

} // verus!
