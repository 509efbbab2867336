//! The sink as the uploader sees it: what is sent, what comes back, and the
//! capabilities that a caller provides.

use vstd::prelude::*;
use crate::engine::Event;
use crate::failure::{joined_causes, Failure};
use crate::retry::{classify_error, error_kind};
use crate::session_log::SessionLog;

verus! {

/// One row of an insert request.
#[derive(Debug)]
pub struct Row {
    /// The key by which the sink recognises a row that it was sent before.
    pub insert_id: Option<String>,
    /// The record.
    pub json: SessionLog,
}

/// A request to insert rows into a table.
#[derive(Debug)]
pub struct InsertAllRequest {
    pub rows: Vec<Row>,
    pub skip_invalid_rows: Option<bool>,
    pub ignore_unknown_values: Option<bool>,
    pub template_suffix: Option<String>,
    pub trace_id: Option<String>,
}

/// What the sink says about one row that it did not take.
#[derive(Debug)]
pub struct ErrorMessage {
    pub reason: String,
    pub location: String,
    pub debug_info: String,
    pub message: String,
}

/// The errors of one row of a request.
#[derive(Debug)]
pub struct InsertError {
    /// The index of the row in the request.
    pub index: i32,
    pub errors: Vec<ErrorMessage>,
}

/// The sink's answer to a request that it accepted.
#[derive(Debug)]
pub struct InsertAllResponse {
    pub kind: String,
    /// The rows that were not taken, if there are any.
    pub insert_errors: Option<Vec<InsertError>>,
}

/// A connection to the sink.
pub trait BigQueryInserter {
    /// Sends `request` to the table.
    fn insert(
        &mut self,
        project_id: &str,
        dataset: &str,
        table: &str,
        request: &InsertAllRequest,
    ) -> Result<InsertAllResponse, Failure>;
}

/// Makes connections to the sink.
pub trait BigQueryClientFactory {
    type Client: BigQueryInserter;

    /// A new connection.
    fn create_client(&mut self) -> Result<Self::Client, Failure>;
}

/// Lets time pass.
pub trait Sleeper {
    /// Returns after `ms` milliseconds.
    fn sleep_ms(&mut self, ms: u64);
}

/// The row that carries `log`: its id is the row's insert key.
pub open spec fn row_of(log: SessionLog) -> Row {
    Row { insert_id: Some(log.uuid), json: log }
}

/// The rows that carry `logs`, in order.
pub open spec fn rows_of(logs: Seq<SessionLog>) -> Seq<Row> {
    logs.map_values(|log: SessionLog| row_of(log))
}

/// The rows for the records `logs[start..end]`.
pub fn prepare_rows_in(logs: &Vec<SessionLog>, start: usize, end: usize) -> (rows: Vec<Row>)
    requires
        start <= end <= logs.len(),
    ensures
        rows@ == rows_of(logs@.subrange(start as int, end as int)),
{
    let mut rows: Vec<Row> = Vec::new();
    let mut i: usize = start;
    while i < end
        invariant
            start <= i <= end <= logs.len(),
            rows@ == rows_of(logs@.subrange(start as int, i as int)),
        decreases end - i,
    {
        let log = logs[i].clone();
        let insert_id = Some(log.uuid.clone());
        rows.push(Row { insert_id, json: log });
        proof {
            assert(rows@ =~= rows_of(logs@.subrange(start as int, i + 1)));
        }
        i += 1;
    }
    rows
}

/// The rows for `logs`: one row for each record, in order, keyed by the record's id.
pub fn prepare_rows(logs: &Vec<SessionLog>) -> (rows: Vec<Row>)
    ensures
        rows@ == rows_of(logs@),
{
    proof {
        assert(logs@.subrange(0, logs@.len() as int) =~= logs@);
    }
    prepare_rows_in(logs, 0, logs.len())
}

/// The request for the records `logs[start..end]`.
pub fn prepare_request(logs: &Vec<SessionLog>, start: usize, end: usize) -> (request:
    InsertAllRequest)
    requires
        start <= end <= logs.len(),
    ensures
        request.rows@ == rows_of(logs@.subrange(start as int, end as int)),
        request.skip_invalid_rows is None,
        request.ignore_unknown_values is None,
        request.template_suffix is None,
        request.trace_id is None,
{
    InsertAllRequest {
        rows: prepare_rows_in(logs, start, end),
        skip_invalid_rows: None,
        ignore_unknown_values: None,
        template_suffix: None,
        trace_id: None,
    }
}

/// What the outcome of a request means to the engine: an answer without row
/// errors, an answer with row errors (be the list empty or not), or a failure
/// of the kind that its flattened cause chain shows.
pub open spec fn outcome_event(outcome: Result<InsertAllResponse, Failure>) -> Event {
    match outcome {
        Ok(response) => if response.insert_errors is Some {
            Event::InsertedWithRowErrors
        } else {
            Event::Inserted
        },
        Err(failure) => Event::InsertFailed(error_kind(joined_causes(failure@))),
    }
}

/// The event that reports `outcome` to the engine.
pub fn interpret_outcome(outcome: &Result<InsertAllResponse, Failure>) -> (event: Event)
    ensures
        event == outcome_event(*outcome),
{
    match outcome {
        Ok(response) => {
            if response.insert_errors.is_some() {
                Event::InsertedWithRowErrors
            } else {
                Event::Inserted
            }
        },
        Err(failure) => {
            let flat = failure.to_string();
            Event::InsertFailed(classify_error(flat.as_str()))
        },
    }
}

/// The indices of the rows for which an answer reports errors, in the order
/// of the report.
pub open spec fn failed_rows(response: InsertAllResponse) -> Seq<i32> {
    match response.insert_errors {
        Some(errors) => errors@.map_values(|e: InsertError| e.index),
        None => Seq::empty(),
    }
}

/// The indices of the rows that the sink did not take.
pub fn failed_row_indices(response: &InsertAllResponse) -> (indices: Vec<i32>)
    ensures
        indices@ == failed_rows(*response),
{
    let mut indices: Vec<i32> = Vec::new();
    match &response.insert_errors {
        Some(errors) => {
            let n = errors.len();
            let mut i: usize = 0;
            while i < n
                invariant
                    n == errors.len(),
                    i <= n,
                    indices@ == errors@.map_values(|e: InsertError| e.index).take(i as int),
                decreases n - i,
            {
                indices.push(errors[i].index);
                proof {
                    assert(indices@ =~= errors@.map_values(|e: InsertError| e.index).take(
                        i + 1,
                    ));
                }
                i += 1;
            }
            proof {
                assert(errors@.map_values(|e: InsertError| e.index).take(n as int)
                    =~= errors@.map_values(|e: InsertError| e.index));
            }
        },
        None => {},
    }
    indices
}

} // verus!
