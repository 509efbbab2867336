//! Uploading a list of records: the loop that carries out what the engine asks for.

use vstd::prelude::*;
use crate::client::{
    interpret_outcome, prepare_request, BigQueryClientFactory, BigQueryInserter,
    Sleeper,
};
use crate::config::Config;
use crate::engine::{
    credit_ok, Action, Chunk, Event, FailureKind, Phase, RetryLimits, UploadEngine,
};
use crate::engine_laws::{lemma_step_progress, work_left};
use crate::failure::{texts, Failure, UploadError};
use crate::session_log::{uuids_of, SessionLog};

verus! {

/// The ids that the chunks `credited` pick from `ids`, chunk after chunk.
pub open spec fn credited_ids(ids: Seq<Seq<char>>, credited: Seq<Chunk>) -> Seq<Seq<char>>
    decreases credited.len(),
{
    if credited.len() == 0 {
        Seq::empty()
    } else {
        credited_ids(ids, credited.drop_last()) + ids.subrange(
            credited.last().start as int,
            credited.last().end as int,
        )
    }
}

/// `picked` is what some chunks of `ids` hold, the chunks being in order and
/// apart from one another: `picked` lists ids of `ids` in their order, none
/// from the same place twice, and each chunk either whole or not at all.
pub open spec fn is_credit_of(picked: Seq<Seq<char>>, ids: Seq<Seq<char>>) -> bool {
    exists|credited: Seq<Chunk>| #[trigger]
        credit_ok(credited, ids.len() as int) && picked == credited_ids(ids, credited)
}

/// What is credited is no longer than the list it is credited from.
pub proof fn lemma_credit_bounded(ids: Seq<Seq<char>>, credited: Seq<Chunk>)
    requires
        credit_ok(credited, ids.len() as int),
    ensures
        credited_ids(ids, credited).len() <= (if credited.len() == 0 {
            0
        } else {
            credited.last().end as int
        }),
        credited_ids(ids, credited).len() <= ids.len(),
    decreases credited.len(),
{
    if credited.len() > 0 {
        let rest = credited.drop_last();
        assert(credit_ok(rest, ids.len() as int)) by {
            assert forall|i: int| 0 <= i < rest.len() implies rest[i] == credited[i] by {}
        }
        lemma_credit_bounded(ids, rest);
        if rest.len() > 0 {
            assert(rest.last() == credited[credited.len() - 2]);
        }
    }
}

/// Where in the list each credited id stands: the indices of the chunks, chunk
/// after chunk.
pub open spec fn credited_places(credited: Seq<Chunk>) -> Seq<int>
    decreases credited.len(),
{
    if credited.len() == 0 {
        Seq::empty()
    } else {
        credited_places(credited.drop_last()) + Seq::new(
            credited.last().span() as nat,
            |i: int| credited.last().start + i,
        )
    }
}

/// What is credited is taken from the list in its order, and from no place
/// twice: the places of the credited ids rise strictly, and the id at each
/// place is the credited id.
pub proof fn lemma_credit_in_order(ids: Seq<Seq<char>>, credited: Seq<Chunk>)
    requires
        credit_ok(credited, ids.len() as int),
    ensures
        ({
            let picked = credited_ids(ids, credited);
            let places = credited_places(credited);
            &&& places.len() == picked.len()
            &&& forall|j: int|
                0 <= j < places.len() ==> 0 <= (#[trigger] places[j]) < ids.len() && picked[j]
                    == ids[places[j]]
            &&& forall|i: int, j: int|
                0 <= i < j < places.len() ==> (#[trigger] places[i]) < (#[trigger] places[j])
            &&& forall|j: int|
                0 <= j < places.len() && credited.len() > 0 ==> (#[trigger] places[j])
                    < credited.last().end
        }),
    decreases credited.len(),
{
    if credited.len() > 0 {
        let rest = credited.drop_last();
        let last = credited.last();
        assert(credit_ok(rest, ids.len() as int)) by {
            assert forall|i: int| 0 <= i < rest.len() implies rest[i] == credited[i] by {}
        }
        lemma_credit_in_order(ids, rest);
        if rest.len() > 0 {
            assert(rest.last() == credited[credited.len() - 2]);
            assert(rest.last().end <= last.start);
        }
        let before = credited_places(rest);
        let places = credited_places(credited);
        let picked = credited_ids(ids, credited);
        assert(last == credited[credited.len() - 1]);
        assert forall|j: int| 0 <= j < places.len() implies 0 <= (#[trigger] places[j])
            < ids.len() && picked[j] == ids[places[j]] && places[j] < last.end by {
            if j >= before.len() {
                assert(places[j] == last.start + (j - before.len()));
            } else {
                assert(places[j] == before[j]);
            }
        }
        assert forall|i: int, j: int| 0 <= i < j < places.len() implies (#[trigger] places[i]) < (
        #[trigger] places[j]) by {
            if i < before.len() {
                assert(places[i] == before[i]);
            } else {
                assert(places[i] == last.start + (i - before.len()));
            }
            if j < before.len() {
                assert(places[j] == before[j]);
            } else {
                assert(places[j] == last.start + (j - before.len()));
            }
        }
    }
}

/// Where no id occurs twice in the list, none occurs twice in what is credited.
pub proof fn lemma_credit_without_duplicates(ids: Seq<Seq<char>>, credited: Seq<Chunk>)
    requires
        credit_ok(credited, ids.len() as int),
        ids.no_duplicates(),
    ensures
        credited_ids(ids, credited).no_duplicates(),
{
    lemma_credit_in_order(ids, credited);
    let picked = credited_ids(ids, credited);
    let places = credited_places(credited);
    assert forall|i: int, j: int| 0 <= i < picked.len() && 0 <= j < picked.len() && i
        != j implies picked[i] != picked[j] by {
        if i < j {
            assert(places[i] < places[j]);
        } else {
            assert(places[j] < places[i]);
        }
        assert(picked[i] == ids[places[i]]);
        assert(picked[j] == ids[places[j]]);
    }
}

/// The ids of the records `logs[start..end]`, in order.
pub fn uuids_in(logs: &Vec<SessionLog>, start: usize, end: usize) -> (ids: Vec<String>)
    requires
        start <= end <= logs.len(),
    ensures
        texts(ids@) == uuids_of(logs@).subrange(start as int, end as int),
{
    let mut ids: Vec<String> = Vec::new();
    let mut i: usize = start;
    while i < end
        invariant
            start <= i <= end <= logs.len(),
            texts(ids@) == uuids_of(logs@).subrange(start as int, i as int),
        decreases end - i,
    {
        let ghost before = ids@;
        ids.push(logs[i].uuid.clone());
        proof {
            assert(texts(ids@) =~= texts(before).push(logs@[i as int].uuid@));
            assert(texts(ids@) =~= uuids_of(logs@).subrange(start as int, i + 1));
        }
        i += 1;
    }
    ids
}

/// The ids of the records in the chunks `credited`, chunk after chunk.
pub fn credited_uuids(logs: &Vec<SessionLog>, credited: &Vec<Chunk>) -> (ids: Vec<String>)
    requires
        credit_ok(credited@, logs.len() as int),
    ensures
        texts(ids@) == credited_ids(uuids_of(logs@), credited@),
        is_credit_of(texts(ids@), uuids_of(logs@)),
{
    let mut ids: Vec<String> = Vec::new();
    let n = credited.len();
    let mut k: usize = 0;
    proof {
        assert(texts(ids@) =~= credited_ids(uuids_of(logs@), credited@.take(0)));
    }
    while k < n
        invariant
            n == credited.len(),
            k <= n,
            credit_ok(credited@, logs.len() as int),
            texts(ids@) == credited_ids(uuids_of(logs@), credited@.take(k as int)),
        decreases n - k,
    {
        let chunk = credited[k];
        let mut part = uuids_in(logs, chunk.start, chunk.end);
        let ghost before = ids@;
        let ghost added = part@;
        ids.append(&mut part);
        proof {
            assert(credited@.take(k + 1).drop_last() =~= credited@.take(k as int));
            assert(credited@.take(k + 1).last() == chunk);
            assert(texts(ids@) =~= texts(before) + texts(added));
        }
        k += 1;
    }
    proof {
        assert(credited@.take(n as int) =~= credited@);
        assert(uuids_of(logs@).len() == logs@.len());
    }
    ids
}

fn give_up(engine: &UploadEngine, last_failure: Option<Failure>) -> (error: UploadError)
    requires
        engine@.phase is FatallyFailed,
    ensures
        engine@.phase == Phase::FatallyFailed(error.kind),
        error.batch_num == engine@.batch_num,
        error.retry_count == engine@.retry.transient_retry_count,
        error.connection_reset_count == engine@.retry.connection_reset_count,
        last_failure matches Some(f) ==> error.cause == f,
{
    let kind = match engine.phase() {
        Phase::FatallyFailed(kind) => kind,
        _ => vstd::pervasive::unreached(),
    };
    let retry = engine.retry_context();
    UploadError {
        kind,
        batch_num: engine.batch_num(),
        retry_count: retry.transient_retry_count,
        connection_reset_count: retry.connection_reset_count,
        cause: match last_failure {
            Some(failure) => failure,
            None => Failure { causes: Vec::new() },
        },
    }
}

/// Sends the records of `chunk` on `connection` and says what came of it: the
/// event for the engine and, where the request failed, the failure.
fn send_chunk<C: BigQueryInserter>(
    connection: &mut C,
    config: &Config,
    logs: &Vec<SessionLog>,
    chunk: Chunk,
) -> (sent: (Event, Option<Failure>))
    requires
        chunk.start <= chunk.end <= logs.len(),
    ensures
        sent.0 is Inserted || sent.0 is InsertedWithRowErrors || sent.0 is InsertFailed,
{
    let request = prepare_request(logs, chunk.start, chunk.end);
    let outcome = connection.insert(
        config.project_id.as_str(),
        config.dataset.as_str(),
        config.table.as_str(),
        &request,
    );
    let event = interpret_outcome(&outcome);
    match outcome {
        Ok(_) => (event, None),
        Err(failure) => (event, Some(failure)),
    }
}

/// Uploads `logs` over connections that `factory` makes, in batches of
/// `config.upload_batch_size` records, within `limits`.
///
/// Each chunk is sent on a connection of its own. A request that the sink
/// finds too large is halved, a broken connection is replaced, a transient
/// failure is retried after a backoff delay, and between two batches the
/// inter-batch delay is waited; the first failure that cannot be recovered
/// ends the upload. The loop ends whatever the sink, the factory and the
/// sleeper do.
///
/// With `dry_run` nothing is sent and every id is returned. Otherwise the ids
/// of the chunks that the sink took without row errors are returned, in the
/// order of `logs`.
pub fn upload_with_factory<F: BigQueryClientFactory, S: Sleeper>(
    factory: &mut F,
    sleeper: &mut S,
    config: &Config,
    limits: RetryLimits,
    logs: Vec<SessionLog>,
    dry_run: bool,
) -> (uploaded: Result<Vec<String>, UploadError>)
    ensures
        logs@.len() == 0 ==> (uploaded matches Ok(ids) && ids@.len() == 0),
        dry_run ==> (uploaded matches Ok(ids) && texts(ids@) == uuids_of(logs@)),
        uploaded matches Ok(ids) ==> is_credit_of(texts(ids@), uuids_of(logs@)),
        uploaded matches Err(error) ==> {
            &&& !dry_run
            &&& 1 <= error.batch_num <= logs@.len()
            &&& error.retry_count <= limits.max_retries
            &&& error.connection_reset_count <= limits.max_connection_resets
            &&& error.kind == FailureKind::RetriesExhausted ==> error.retry_count
                == limits.max_retries
            &&& error.kind == FailureKind::TooManyConnectionResets
                ==> error.connection_reset_count == limits.max_connection_resets
        },
{
    if logs.len() == 0 || dry_run {
        let ids = uuids_in(&logs, 0, logs.len());
        proof {
            assert(uuids_of(logs@).subrange(0, logs@.len() as int) =~= uuids_of(logs@));
            lemma_whole_is_credit(uuids_of(logs@));
        }
        return Ok(ids);
    }
    let batch_size = config.upload_batch_size as usize;
    let mut engine = UploadEngine::new(logs.len(), batch_size, limits, true);
    let mut client: Option<F::Client> = None;
    let mut last_failure: Option<Failure> = None;
    loop
        invariant
            engine@.wf(),
            engine@.total == logs.len(),
            engine@.limits == limits,
            engine@.resilient,
            engine@.phase is Attempting || engine@.phase is Backoff ==> client is Some,
            logs.len() > 0,
            !dry_run,
        decreases
                work_left(engine@).0,
                work_left(engine@).1,
                work_left(engine@).2,
                work_left(engine@).3,
    {
        let ghost before = engine@;
        let event = match engine.action() {
            Action::Connect => {
                match factory.create_client() {
                    Ok(made) => {
                        client = Some(made);
                        Event::Connected
                    },
                    Err(failure) => {
                        last_failure = Some(failure);
                        Event::ConnectFailed
                    },
                }
            },
            Action::Submit(chunk) => {
                let mut connection = match client {
                    Some(connection) => connection,
                    None => vstd::pervasive::unreached(),
                };
                let (event, failure) = send_chunk(&mut connection, config, &logs, chunk);
                client = Some(connection);
                if failure.is_some() {
                    last_failure = failure;
                }
                event
            },
            Action::Wait(ms) => {
                sleeper.sleep_ms(ms);
                Event::Waited
            },
            Action::Finish => {
                return Ok(credited_uuids(&logs, engine.credited()));
            },
            Action::Abort(_) => {
                return Err(give_up(&engine, last_failure));
            },
        };
        proof {
            lemma_step_progress(before, event);
        }
        engine.step(event);
    }
}

/// Uploads `logs` as [`upload_with_factory`] does, within the standard limits.
pub fn upload_to_bigquery_with_factory<F: BigQueryClientFactory, S: Sleeper>(
    factory: &mut F,
    sleeper: &mut S,
    config: &Config,
    logs: Vec<SessionLog>,
    dry_run: bool,
) -> (uploaded: Result<Vec<String>, UploadError>)
    ensures
        logs@.len() == 0 ==> (uploaded matches Ok(ids) && ids@.len() == 0),
        dry_run ==> (uploaded matches Ok(ids) && texts(ids@) == uuids_of(logs@)),
        uploaded matches Ok(ids) ==> is_credit_of(texts(ids@), uuids_of(logs@)),
        uploaded matches Err(error) ==> !dry_run && 1 <= error.batch_num <= logs@.len()
            && error.retry_count <= crate::retry::MAX_RETRIES && error.connection_reset_count
            <= crate::retry::MAX_CONNECTION_RESETS,
{
    upload_with_factory(factory, sleeper, config, RetryLimits::default(), logs, dry_run)
}

/// Uploads `logs` on the one connection `client`, in batches of
/// `config.upload_batch_size` records, within `limits`.
///
/// As [`upload_with_factory`], but the connection is never replaced: a
/// connection-level failure is retried like a transient one, within the same
/// limit of retries.
pub fn upload_with_client<T: BigQueryInserter, S: Sleeper>(
    client: &mut T,
    sleeper: &mut S,
    config: &Config,
    limits: RetryLimits,
    logs: Vec<SessionLog>,
    dry_run: bool,
) -> (uploaded: Result<Vec<String>, UploadError>)
    ensures
        logs@.len() == 0 ==> (uploaded matches Ok(ids) && ids@.len() == 0),
        dry_run ==> (uploaded matches Ok(ids) && texts(ids@) == uuids_of(logs@)),
        uploaded matches Ok(ids) ==> is_credit_of(texts(ids@), uuids_of(logs@)),
        uploaded matches Err(error) ==> {
            &&& !dry_run
            &&& 1 <= error.batch_num <= logs@.len()
            &&& error.retry_count <= limits.max_retries
            &&& error.connection_reset_count == 0
            &&& !(error.kind is ConnectFailed) && !(error.kind is ReconnectFailed) && !(error.kind
                is TooManyConnectionResets)
            &&& error.kind == FailureKind::RetriesExhausted ==> error.retry_count
                == limits.max_retries
        },
{
    if logs.len() == 0 || dry_run {
        let ids = uuids_in(&logs, 0, logs.len());
        proof {
            assert(uuids_of(logs@).subrange(0, logs@.len() as int) =~= uuids_of(logs@));
            lemma_whole_is_credit(uuids_of(logs@));
        }
        return Ok(ids);
    }
    let batch_size = config.upload_batch_size as usize;
    let mut engine = UploadEngine::new(logs.len(), batch_size, limits, false);
    let mut last_failure: Option<Failure> = None;
    loop
        invariant
            engine@.wf(),
            engine@.total == logs.len(),
            engine@.limits == limits,
            !engine@.resilient,
            logs.len() > 0,
            !dry_run,
        decreases
                work_left(engine@).0,
                work_left(engine@).1,
                work_left(engine@).2,
                work_left(engine@).3,
    {
        let ghost before = engine@;
        let event = match engine.action() {
            Action::Connect => vstd::pervasive::unreached(),
            Action::Submit(chunk) => {
                let (event, failure) = send_chunk(client, config, &logs, chunk);
                if failure.is_some() {
                    last_failure = failure;
                }
                event
            },
            Action::Wait(ms) => {
                sleeper.sleep_ms(ms);
                Event::Waited
            },
            Action::Finish => {
                return Ok(credited_uuids(&logs, engine.credited()));
            },
            Action::Abort(_) => {
                return Err(give_up(&engine, last_failure));
            },
        };
        proof {
            lemma_step_progress(before, event);
        }
        engine.step(event);
    }
}

/// Uploads `logs` as [`upload_with_client`] does, within the standard limits.
pub fn upload_to_bigquery<T: BigQueryInserter, S: Sleeper>(
    client: &mut T,
    sleeper: &mut S,
    config: &Config,
    logs: Vec<SessionLog>,
    dry_run: bool,
) -> (uploaded: Result<Vec<String>, UploadError>)
    ensures
        logs@.len() == 0 ==> (uploaded matches Ok(ids) && ids@.len() == 0),
        dry_run ==> (uploaded matches Ok(ids) && texts(ids@) == uuids_of(logs@)),
        uploaded matches Ok(ids) ==> is_credit_of(texts(ids@), uuids_of(logs@)),
        uploaded matches Err(error) ==> !dry_run && 1 <= error.batch_num <= logs@.len()
            && error.retry_count <= crate::retry::MAX_RETRIES && error.connection_reset_count
            == 0,
{
    upload_with_client(client, sleeper, config, RetryLimits::default(), logs, dry_run)
}

/// The whole list is credited when its one chunk is.
pub proof fn lemma_whole_is_credit(ids: Seq<Seq<char>>)
    requires
        ids.len() <= usize::MAX,
    ensures
        is_credit_of(ids, ids),
{
    if ids.len() == 0 {
        let none = Seq::<Chunk>::empty();
        assert(credit_ok(none, ids.len() as int));
        assert(credited_ids(ids, none) =~= ids);
    } else {
        let whole = seq![Chunk { start: 0, end: ids.len() as usize }];
        assert(credit_ok(whole, ids.len() as int));
        assert(whole.drop_last() =~= Seq::<Chunk>::empty());
        assert(whole.last() == Chunk { start: 0, end: ids.len() as usize });
        assert(credited_ids(ids, whole.drop_last()) =~= Seq::<Seq<char>>::empty());
        assert(credited_ids(ids, whole) =~= ids.subrange(0, ids.len() as int));
        assert(ids.subrange(0, ids.len() as int) =~= ids);
    }
}

} // verus!
