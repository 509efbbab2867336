//! What holds of every run of the upload engine.

use vstd::prelude::*;
use crate::engine::{
    credit_ok, pending_ok, Action, Chunk, EngineState, Event, FailureKind, Phase, RetryContext,
    RetryLimits,
};
use crate::batch_uploader::credited_ids;
use crate::retry::ErrorKind;
use crate::upload_batch::{lemma_partition_chunk, partition};

verus! {

/// An upload begins in a well-formed state.
pub proof fn lemma_start_wf(total: usize, batch_size: usize, limits: RetryLimits, resilient: bool)
    ensures
        EngineState::start(total, batch_size, limits, resilient).wf(),
        total == 0 ==> EngineState::start(total, batch_size, limits, resilient).phase is Succeeded,
        total > 0 ==> EngineState::start(total, batch_size, limits, resilient).active(),
        EngineState::start(total, batch_size, limits, resilient).total == total,
        EngineState::start(total, batch_size, limits, resilient).credited.len() == 0,
{
}

proof fn lemma_advance_wf(s: EngineState)
    requires
        s.wf(),
        s.phase is Attempting,
    ensures
        s.advance().wf(),
        (EngineState { credited: s.credited.push(s.current), ..s }).advance().wf(),
{
    let c = EngineState { credited: s.credited.push(s.current), ..s };
    let k = s.pending.len() as int;
    assert(credit_ok(c.credited, s.current.end as int));
    assert(credit_ok(s.credited, s.current.end as int));
    if k > 0 {
        let rest = s.pending.drop_last();
        let top = s.pending.last();
        assert(top == s.pending[k - 1]);
        assert forall|i: int| 0 <= i < rest.len() implies rest[i] == s.pending[i] by {}
        assert(pending_ok(rest, top.end as int, s.next_start as int)) by {
            if rest.len() > 0 {
                assert(rest.last() == s.pending[k - 2]);
                assert(s.pending[k - 2].start == s.pending[k - 2 + 1].end);
            }
        }
        assert(credit_ok(c.credited, top.start as int));
        assert(credit_ok(s.credited, top.start as int));
    }
}

proof fn lemma_split_wf(s: EngineState)
    requires
        s.wf(),
        s.phase is Attempting,
        s.can_split(),
    ensures
        s.split().wf(),
        s.current.start < s.cut() < s.current.end,
{
    let k = s.pending.len() as int;
    let half = s.current.span() / 2;
    assert(1 <= half < s.current.span());
    let t = s.split();
    if k > 0 {
        assert(s.pending[k - 1].start == s.current.end);
    }
    assert forall|i: int| 0 <= i < t.pending.len() implies (#[trigger] t.pending[i]).start
        < t.pending[i].end && t.pending[i].end + i <= s.next_start by {
        if i < k {
            assert(t.pending[i] == s.pending[i]);
        }
    }
    assert forall|i: int| 0 <= i < t.pending.len() - 1 implies (#[trigger] t.pending[i]).start
        == t.pending[i + 1].end by {
        if i < k - 1 {
            assert(t.pending[i] == s.pending[i]);
            assert(t.pending[i + 1] == s.pending[i + 1]);
        } else {
            assert(t.pending[i] == s.pending[k - 1]);
        }
    }
    assert(t.pending.last().start == t.current.end);
    if k > 0 {
        assert(t.pending[0] == s.pending[0]);
    }
    assert(pending_ok(t.pending, t.current.end as int, t.next_start as int));
}

/// Whatever is reported to the engine, its state stays well-formed.
pub proof fn lemma_step_wf(s: EngineState, event: Event)
    requires
        s.wf(),
    ensures
        s.step(event).wf(),
{
    match (s.phase, event) {
        (Phase::Pausing, Event::Waited) => {},
        (Phase::Attempting, Event::Inserted) => {
            lemma_advance_wf(s);
        },
        (Phase::Attempting, Event::InsertedWithRowErrors) => {
            lemma_advance_wf(s);
        },
        (Phase::Attempting, Event::InsertFailed(kind)) => {
            if kind == ErrorKind::OversizedRequest && s.can_split() {
                lemma_split_wf(s);
            }
        },
        _ => {},
    }
}

/// The rank of a phase within the attempt at one chunk.
pub open spec fn phase_rank(phase: Phase) -> int {
    match phase {
        Phase::Connecting => 3,
        Phase::Reconnecting => 2,
        Phase::Backoff => 1,
        _ => 0,
    }
}

/// A measure of the work that may still lie before the engine: the chunks that
/// may still be formed, the connections and the retries that the current chunk
/// may still use (all of the retries while the connection is being replaced),
/// and the rank of the phase.
pub open spec fn work_left(s: EngineState) -> (int, int, int, int) {
    if s.active() {
        (
            2 * (s.total - s.current.start) - 1 - s.pending.len(),
            s.limits.max_connection_resets - s.retry.connection_reset_count,
            if s.phase is Reconnecting {
                s.limits.max_retries as int
            } else {
                s.limits.max_retries - s.retry.transient_retry_count
            },
            phase_rank(s.phase),
        )
    } else if s.phase is Pausing {
        (2 * (s.total - s.next_start), 0, 0, 0)
    } else {
        (0, 0, 0, 0)
    }
}

/// `a` comes before `b` in the order of the dictionary, and no part of either is negative.
pub open spec fn less_work(a: (int, int, int, int), b: (int, int, int, int)) -> bool {
    &&& 0 <= a.0 && 0 <= a.1 && 0 <= a.2 && 0 <= a.3
    &&& 0 <= b.0 && 0 <= b.1 && 0 <= b.2 && 0 <= b.3
    &&& {
        ||| a.0 < b.0
        ||| a.0 == b.0 && a.1 < b.1
        ||| a.0 == b.0 && a.1 == b.1 && a.2 < b.2
        ||| a.0 == b.0 && a.1 == b.1 && a.2 == b.2 && a.3 < b.3
    }
}

proof fn lemma_pending_bound(s: EngineState)
    requires
        s.wf(),
        s.active(),
    ensures
        s.pending.len() <= s.next_start - s.current.end,
{
    let k = s.pending.len() as int;
    if k > 0 {
        assert(s.pending[k - 1].start == s.current.end);
        assert(s.pending[k - 1].end + (k - 1) <= s.next_start);
    }
}

/// Every answer to what the engine asked for leaves it with less work: the
/// engine comes to an end, however the sink behaves. In particular a chunk is
/// only ever split into shorter chunks, so that splitting is bounded.
pub proof fn lemma_step_progress(s: EngineState, event: Event)
    requires
        s.wf(),
        s.expects(event),
    ensures
        less_work(work_left(s.step(event)), work_left(s)),
{
    lemma_step_wf(s, event);
    let t = s.step(event);
    if s.active() {
        lemma_pending_bound(s);
    }
    if t.active() {
        lemma_pending_bound(t);
    }
    match (s.phase, event) {
        (Phase::Attempting, Event::InsertFailed(kind)) => {
            if kind == ErrorKind::OversizedRequest && s.can_split() {
                lemma_split_wf(s);
            }
        },
        _ => {},
    }
}

/// An engine that has come to its end asks for nothing more and takes no event.
pub proof fn lemma_terminal_is_final(s: EngineState, event: Event)
    requires
        s.terminal(),
    ensures
        s.step(event) == s,
        s.action() is Finish || s.action() is Abort,
        !s.expects(event),
{
}

/// A chunk that the sink finds too large, and that is at or below the least
/// size for a split, ends the upload at once: nothing is split and nothing
/// more is sent.
pub proof fn lemma_oversized_at_minimum(s: EngineState)
    requires
        s.wf(),
        s.phase is Attempting,
        s.current.span() <= s.limits.min_split_size || s.current.span() <= 1,
    ensures
        s.step(Event::InsertFailed(ErrorKind::OversizedRequest)) == s.give_up(
            FailureKind::TooLargeAtMinimumSize,
        ),
        s.step(Event::InsertFailed(ErrorKind::OversizedRequest)).action() == Action::Abort(
            FailureKind::TooLargeAtMinimumSize,
        ),
        s.step(Event::InsertFailed(ErrorKind::OversizedRequest)).pending == s.pending,
        s.step(Event::InsertFailed(ErrorKind::OversizedRequest)).credited == s.credited,
{
}

/// A chunk above the least size that the sink finds too large is cut in the
/// middle. Both halves are shorter than the chunk and not empty, they are
/// attempted one after the other in their order, and each attempt starts with
/// its counters at zero.
pub proof fn lemma_oversized_splits(s: EngineState)
    requires
        s.wf(),
        s.phase is Attempting,
        s.can_split(),
    ensures
        ({
            let t = s.step(Event::InsertFailed(ErrorKind::OversizedRequest));
            &&& t.current == Chunk { start: s.current.start, end: s.cut() }
            &&& t.pending == s.pending.push(Chunk { start: s.cut(), end: s.current.end })
            &&& s.cut() == s.current.start + s.current.span() / 2
            &&& 0 < t.current.span() < s.current.span()
            &&& 0 < t.pending.last().span() < s.current.span()
            &&& t.retry == RetryContext::fresh()
            &&& t.credited == s.credited
            &&& t.phase == s.first_phase()
        }),
{
    lemma_split_wf(s);
}

/// The state after `k` rounds in which the request fails with a transient
/// failure and the engine's wait is then served.
pub open spec fn after_transient_rounds(s: EngineState, k: nat) -> EngineState
    decreases k,
{
    if k == 0 {
        s
    } else {
        after_transient_rounds(s, (k - 1) as nat).step(
            Event::InsertFailed(ErrorKind::Transient),
        ).step(Event::Waited)
    }
}

/// Against a sink that always fails with a transient failure, a chunk is sent
/// once and then once more for each retry that the limit allows: after `k`
/// failures, for `k` up to `max_retries`, the engine asks for the same chunk
/// again, having waited the backoff delay of retry `k`; the failure after
/// that ends the upload.
pub proof fn lemma_transient_storm(s: EngineState, k: nat)
    requires
        s.wf(),
        s.phase is Attempting,
        s.retry.transient_retry_count == 0,
        k <= s.limits.max_retries,
    ensures
        ({
            let t = after_transient_rounds(s, k);
            let failed = t.step(Event::InsertFailed(ErrorKind::Transient));
            &&& t == EngineState {
                retry: RetryContext { transient_retry_count: k as u32, ..s.retry },
                ..s
            }
            &&& t.action() == Action::Submit(s.current)
            &&& k < s.limits.max_retries ==> failed.action() == Action::Wait(
                s.limits.delay(k + 1) as u64,
            )
            &&& k == s.limits.max_retries ==> failed.action() == Action::Abort(
                FailureKind::RetriesExhausted,
            )
        }),
    decreases k,
{
    if k > 0 {
        lemma_transient_storm(s, (k - 1) as nat);
    }
}

/// A connection that breaks once is replaced once. With connections made on
/// request and at least one replacement allowed: the engine asks for a
/// connection, sends the chunk, and on a connection-level failure asks for a
/// second connection, waits the first backoff delay, and sends the same chunk
/// once more; when that request succeeds the whole chunk is credited.
pub proof fn lemma_connection_reset_recovery(s: EngineState)
    requires
        s.wf(),
        s.phase is Connecting,
        s.limits.max_connection_resets >= 1,
    ensures
        ({
            let connected = s.step(Event::Connected);
            let broken = connected.step(Event::InsertFailed(ErrorKind::ConnectionLevel));
            let replaced = broken.step(Event::Connected);
            let waited = replaced.step(Event::Waited);
            let done = waited.step(Event::Inserted);
            &&& s.action() == Action::Connect
            &&& connected.action() == Action::Submit(s.current)
            &&& broken.action() == Action::Connect
            &&& replaced.action() == Action::Wait(s.limits.delay(1) as u64)
            &&& waited.action() == Action::Submit(s.current)
            &&& waited.retry == RetryContext {
                transient_retry_count: 0,
                connection_reset_count: 1,
            }
            &&& done.credited == s.credited.push(s.current)
            &&& !(done.phase is FatallyFailed)
        }),
{
}

/// Whenever a connection is replaced, the retries start over: after a
/// connection-level failure within the limit, a new connection and the wait
/// that the count of replacements calls for, the same chunk is sent again
/// with no retry counted.
pub proof fn lemma_reconnect_restarts_retries(s: EngineState)
    requires
        s.wf(),
        s.phase is Attempting,
        s.resilient,
        s.retry.connection_reset_count < s.limits.max_connection_resets,
    ensures
        ({
            let broken = s.step(Event::InsertFailed(ErrorKind::ConnectionLevel));
            let replaced = broken.step(Event::Connected);
            let waited = replaced.step(Event::Waited);
            &&& broken.action() == Action::Connect
            &&& broken.retry.transient_retry_count == s.retry.transient_retry_count
            &&& replaced.action() == Action::Wait(
                s.limits.delay((s.retry.connection_reset_count + 1) as nat) as u64,
            )
            &&& waited.action() == Action::Submit(s.current)
            &&& waited.retry == RetryContext {
                transient_retry_count: 0,
                connection_reset_count: (s.retry.connection_reset_count + 1) as u32,
            }
            &&& broken.step(Event::ConnectFailed).action() == Action::Abort(
                FailureKind::ReconnectFailed,
            )
        }),
{
}

/// When the limit of connection replacements is used up, the next
/// connection-level failure ends the upload.
pub proof fn lemma_connection_resets_exhausted(s: EngineState)
    requires
        s.wf(),
        s.phase is Attempting,
        s.resilient,
        s.retry.connection_reset_count == s.limits.max_connection_resets,
    ensures
        s.step(Event::InsertFailed(ErrorKind::ConnectionLevel)).action() == Action::Abort(
            FailureKind::TooManyConnectionResets,
        ),
{
}

/// A failure that is neither a matter of size, of the connection nor of a
/// passing condition ends the upload at once.
pub proof fn lemma_fatal_is_not_retried(s: EngineState)
    requires
        s.phase is Attempting,
    ensures
        s.step(Event::InsertFailed(ErrorKind::Fatal)).action() == Action::Abort(
            FailureKind::Fatal,
        ),
{
}

/// Between two batches the engine waits the inter-batch delay, and after the
/// last batch it does not: when a chunk is done with and nothing of its batch
/// is pending, the engine pauses exactly if records are left.
pub proof fn lemma_pause_between_batches(s: EngineState, event: Event)
    requires
        s.wf(),
        s.phase is Attempting,
        s.pending.len() == 0,
        event is Inserted || event is InsertedWithRowErrors,
    ensures
        s.next_start < s.total ==> s.step(event).action() == Action::Wait(
            s.limits.inter_batch_delay_ms,
        ) && s.step(event).step(Event::Waited).current == s.batch_at(s.next_start),
        s.next_start == s.total ==> s.step(event).action() == Action::Finish,
{
}

/// A chunk whose request comes back with row errors is credited nothing; one
/// whose request succeeds is credited whole.
pub proof fn lemma_credit(s: EngineState)
    requires
        s.phase is Attempting,
    ensures
        s.step(Event::InsertedWithRowErrors).credited == s.credited,
        s.step(Event::Inserted).credited == s.credited.push(s.current),
{
}

/// The batches of the engine are the chunks of the partition: the batch that
/// starts where chunk `k` of the partition of the records starts holds the
/// records of that chunk.
pub proof fn lemma_batches_are_the_partition<T>(s: EngineState, records: Seq<T>, k: int)
    requires
        records.len() == s.total,
        0 <= k < partition(records, s.batch_size as nat).len(),
        s.total > 0,
    ensures
        0 <= k * s.batch_span() < s.total,
        ({
            let batch = s.batch_at((k * s.batch_span()) as usize);
            &&& batch.start == k * s.batch_span()
            &&& batch.start < batch.end <= s.total
            &&& records.subrange(batch.start as int, batch.end as int) == partition(
                records,
                s.batch_size as nat,
            )[k]
        }),
{
    if s.batch_size == 0 {
        assert(k == 0);
        assert(k * s.batch_span() == 0) by (nonlinear_arith)
            requires
                k == 0,
        ;
        assert(records.subrange(0, records.len() as int) =~= records);
    } else {
        lemma_partition_chunk(records, s.batch_size as nat, k);
        assert((k + 1) * s.batch_span() == k * s.batch_span() + s.batch_span())
            by (nonlinear_arith);
        assert(k * s.batch_span() >= 0) by (nonlinear_arith)
            requires
                k >= 0,
                s.batch_span() >= 0,
        ;
    }
}

/// What is reported to the engine when nothing fails: every connection is
/// made, every request is taken without row errors, every wait is served.
pub open spec fn granted(s: EngineState) -> Event {
    match s.phase {
        Phase::Connecting | Phase::Reconnecting => Event::Connected,
        Phase::Attempting => Event::Inserted,
        _ => Event::Waited,
    }
}

/// The state in which the engine ends when nothing fails from `s` on.
pub open spec fn end_without_failure(s: EngineState) -> EngineState
    decreases work_left(s).0, work_left(s).1, work_left(s).2, work_left(s).3,
    when s.wf()
    via end_without_failure_decreases
{
    if s.terminal() {
        s
    } else {
        end_without_failure(s.step(granted(s)))
    }
}

#[via_fn]
proof fn end_without_failure_decreases(s: EngineState) {
    if !s.terminal() {
        lemma_step_progress(s, granted(s));
    }
}

/// Up to where the records are dealt with in the state `s`.
pub open spec fn frontier(s: EngineState) -> int {
    if s.active() {
        s.current.start as int
    } else {
        s.next_start as int
    }
}

proof fn lemma_ends_with_all_credited(s: EngineState, ids: Seq<Seq<char>>)
    requires
        s.wf(),
        ids.len() == s.total,
        !(s.phase is FatallyFailed),
        s.pending.len() == 0,
        credited_ids(ids, s.credited) == ids.take(frontier(s)),
    ensures
        end_without_failure(s).phase is Succeeded,
        credited_ids(ids, end_without_failure(s).credited) == ids,
    decreases work_left(s).0, work_left(s).1, work_left(s).2, work_left(s).3,
{
    if s.terminal() {
        assert(ids.take(s.total as int) =~= ids);
    } else {
        let t = s.step(granted(s));
        lemma_step_wf(s, granted(s));
        lemma_step_progress(s, granted(s));
        if s.phase is Attempting {
            let more = s.credited.push(s.current);
            assert(more.drop_last() =~= s.credited);
            assert(more.last() == s.current);
            assert(ids.take(s.current.start as int) + ids.subrange(
                s.current.start as int,
                s.current.end as int,
            ) =~= ids.take(s.current.end as int));
            assert(t.credited == more);
        }
        lemma_ends_with_all_credited(t, ids);
    }
}

/// When nothing fails, an upload ends in success, and every record is
/// credited, in the order of the list: whatever the number of records, the
/// size of the batches and the limits, and with or without connections made
/// on request.
pub proof fn lemma_upload_without_failure(
    total: usize,
    batch_size: usize,
    limits: RetryLimits,
    resilient: bool,
    ids: Seq<Seq<char>>,
)
    requires
        ids.len() == total,
    ensures
        ({
            let end = end_without_failure(EngineState::start(total, batch_size, limits, resilient));
            &&& end.phase is Succeeded
            &&& credited_ids(ids, end.credited) == ids
        }),
{
    let s = EngineState::start(total, batch_size, limits, resilient);
    lemma_start_wf(total, batch_size, limits, resilient);
    assert(credited_ids(ids, s.credited) =~= ids.take(0));
    lemma_ends_with_all_credited(s, ids);
}

} // verus!
