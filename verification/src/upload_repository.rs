//! What an upload of one batch reports, and who uploads batches.

use vstd::prelude::*;
use crate::failure::Failure;
use crate::session_log::{uuids_of, SessionLog};
use crate::upload_batch::UploadBatch;

verus! {

/// The outcome of the upload of one batch.
#[derive(Debug, Clone)]
pub struct UploadResult {
    /// How many records were credited.
    pub uploaded_count: usize,
    /// How many records were not.
    pub failed_count: usize,
    /// The ids of the credited records, in order.
    pub uploaded_uuids: Vec<String>,
}

impl UploadResult {
    /// An outcome of the given parts.
    pub fn new(uploaded_count: usize, failed_count: usize, uploaded_uuids: Vec<String>) -> (result:
        Self)
        ensures
            result == (UploadResult { uploaded_count, failed_count, uploaded_uuids }),
    {
        UploadResult { uploaded_count, failed_count, uploaded_uuids }
    }

    /// Whether no record failed.
    pub fn is_success(&self) -> (success: bool)
        ensures
            success == (self.failed_count == 0),
    {
        self.failed_count == 0
    }
}

/// The outcome accounts for the batch: as many records are counted as
/// uploaded as ids are listed, every record of the batch is counted once,
/// as uploaded or as failed, and every id that is listed is the id of a
/// record of the batch.
pub open spec fn accounts_for(result: UploadResult, batch: Seq<SessionLog>) -> bool {
    &&& result.uploaded_count == result.uploaded_uuids@.len()
    &&& result.uploaded_count + result.failed_count == batch.len()
    &&& forall|i: int|
        0 <= i < result.uploaded_uuids@.len() ==> uuids_of(batch).contains(
            (#[trigger] result.uploaded_uuids@[i])@,
        )
}

/// Uploads batches of records.
pub trait UploadRepository {
    /// Uploads `batch` and says how it went. Whether the upload succeeds is
    /// up to the repository; an outcome that it reports accounts for the batch.
    fn upload_batch(&mut self, batch: &UploadBatch) -> (uploaded: Result<UploadResult, Failure>)
        ensures
            uploaded matches Ok(result) ==> accounts_for(result, batch@),
    ;
}

} // verus!
