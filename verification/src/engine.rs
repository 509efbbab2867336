//! The upload engine: a state machine that decides, for a list of records, what
//! is sent next, when to wait, when to reconnect, when to split a chunk and when
//! to give up. It does no input or output itself: the caller performs each
//! action and reports what came of it.

use vstd::prelude::*;
use crate::engine_laws::{lemma_start_wf, lemma_step_wf};
use crate::retry::{
    backoff_delay, retry_delay, ErrorKind, BATCH_DELAY_MS, INITIAL_RETRY_DELAY_MS,
    MAX_CONNECTION_RESETS, MAX_RETRIES, MAX_RETRY_DELAY_MS, MIN_BATCH_SIZE,
};

verus! {

/// The records `start..end` of the list that is being uploaded.
#[derive(Clone, Copy, Debug, PartialEq, Eq, Structural)]
pub struct Chunk {
    pub start: usize,
    pub end: usize,
}

impl Chunk {
    /// How many records the chunk holds.
    pub open spec fn span(self) -> int {
        self.end - self.start
    }

    /// How many records the chunk holds.
    pub fn len(&self) -> (n: usize)
        requires
            self.start <= self.end,
        ensures
            n == self.span(),
    {
        self.end - self.start
    }
}

/// The limits within which the engine retries.
#[derive(Clone, Copy, Debug, PartialEq, Eq, Structural)]
pub struct RetryLimits {
    /// Retries of one chunk on the same connection.
    pub max_retries: u32,
    /// Replacements of the connection for one chunk.
    pub max_connection_resets: u32,
    /// The first backoff delay, in milliseconds.
    pub initial_retry_delay_ms: u64,
    /// The longest backoff delay, in milliseconds.
    pub max_retry_delay_ms: u64,
    /// The pause between two successive batches, in milliseconds.
    pub inter_batch_delay_ms: u64,
    /// A chunk of at most this many records is not split further. A chunk of
    /// one record is never split, whatever this says.
    pub min_split_size: usize,
}

impl RetryLimits {
    /// The limits that are used where none are given.
    pub open spec fn standard() -> RetryLimits {
        RetryLimits {
            max_retries: MAX_RETRIES,
            max_connection_resets: MAX_CONNECTION_RESETS,
            initial_retry_delay_ms: INITIAL_RETRY_DELAY_MS,
            max_retry_delay_ms: MAX_RETRY_DELAY_MS,
            inter_batch_delay_ms: BATCH_DELAY_MS,
            min_split_size: MIN_BATCH_SIZE,
        }
    }

    /// The delay before retry number `n` under these limits.
    pub open spec fn delay(self, n: nat) -> int {
        backoff_delay(self.initial_retry_delay_ms, self.max_retry_delay_ms, n)
    }
}

impl Default for RetryLimits {
    fn default() -> (limits: Self)
        ensures
            limits == RetryLimits::standard(),
    {
        RetryLimits {
            max_retries: MAX_RETRIES,
            max_connection_resets: MAX_CONNECTION_RESETS,
            initial_retry_delay_ms: INITIAL_RETRY_DELAY_MS,
            max_retry_delay_ms: MAX_RETRY_DELAY_MS,
            inter_batch_delay_ms: BATCH_DELAY_MS,
            min_split_size: MIN_BATCH_SIZE,
        }
    }
}

/// The counters of one attempt at one chunk. They start at zero for every
/// chunk and for each half of a split chunk.
#[derive(Clone, Copy, Debug, PartialEq, Eq, Structural)]
pub struct RetryContext {
    pub transient_retry_count: u32,
    pub connection_reset_count: u32,
}

impl RetryContext {
    /// The counters of an attempt that has not failed yet.
    pub open spec fn fresh() -> RetryContext {
        RetryContext { transient_retry_count: 0, connection_reset_count: 0 }
    }
}

/// Why an upload was given up.
#[derive(Clone, Copy, Debug, PartialEq, Eq, Structural)]
pub enum FailureKind {
    /// No connection could be made for a chunk.
    ConnectFailed,
    /// The connection broke and could not be replaced.
    ReconnectFailed,
    /// The sink found the request too large, and the chunk cannot be split.
    TooLargeAtMinimumSize,
    /// The connection broke more often than the limit allows.
    TooManyConnectionResets,
    /// A retryable failure came back more often than the limit allows.
    RetriesExhausted,
    /// A failure that is never retried.
    Fatal,
}

/// Where the engine stands.
#[derive(Clone, Copy, Debug, PartialEq, Eq, Structural)]
pub enum Phase {
    /// A connection for a new chunk is being made.
    Connecting,
    /// A request for the current chunk is under way.
    Attempting,
    /// The connection broke; a new one is being made.
    Reconnecting,
    /// Waiting before the current chunk is tried again.
    Backoff,
    /// Waiting between two batches.
    Pausing,
    /// Every chunk was dealt with.
    Succeeded,
    /// The upload was given up.
    FatallyFailed(FailureKind),
}

/// What the caller reports back to the engine.
#[derive(Clone, Copy, Debug, PartialEq, Eq, Structural)]
pub enum Event {
    /// A connection was made.
    Connected,
    /// No connection could be made.
    ConnectFailed,
    /// The sink took the request and reported no row errors.
    Inserted,
    /// The sink took the request and reported errors for some rows.
    InsertedWithRowErrors,
    /// The request failed with a failure of the given kind.
    InsertFailed(ErrorKind),
    /// The wait is over.
    Waited,
}

/// What the engine asks the caller to do next.
#[derive(Clone, Copy, Debug, PartialEq, Eq, Structural)]
pub enum Action {
    /// Make a connection, dropping the one in use.
    Connect,
    /// Send the records of the chunk on the connection in use.
    Submit(Chunk),
    /// Wait for so many milliseconds.
    Wait(u64),
    /// Nothing is left to do: the upload is complete.
    Finish,
    /// Nothing is left to do: the upload was given up.
    Abort(FailureKind),
}

/// The state of an engine, as the contracts see it.
pub struct EngineState {
    /// How many records there are.
    pub total: usize,
    /// The size of a batch; zero for one batch of everything.
    pub batch_size: usize,
    pub limits: RetryLimits,
    /// Whether connections are made, and replaced when they break, on request of
    /// the engine. If not, the caller holds one connection for the whole upload,
    /// and a broken connection counts as a transient failure.
    pub resilient: bool,
    /// The number of the batch that is being uploaded, counted from 1.
    pub batch_num: usize,
    /// Where the next batch starts.
    pub next_start: usize,
    /// The parts of the current batch that are still to be sent, the next one last.
    pub pending: Seq<Chunk>,
    /// The chunk that is being sent.
    pub current: Chunk,
    pub retry: RetryContext,
    pub phase: Phase,
    /// The chunks that the sink took without row errors, in order.
    pub credited: Seq<Chunk>,
}

/// The chunks are not empty, do not overlap, are in order and end at or before `bound`.
pub open spec fn credit_ok(credited: Seq<Chunk>, bound: int) -> bool {
    &&& forall|i: int|
        0 <= i < credited.len() ==> 0 <= (#[trigger] credited[i]).start < credited[i].end
            <= bound
    &&& forall|i: int, j: int|
        0 <= i < j < credited.len() ==> (#[trigger] credited[i]).end <= (
        #[trigger] credited[j]).start
}

/// The chunks on the stack are not empty and follow one another without a gap
/// from `lo`, where the topmost starts, to `hi`, where the lowest ends.
pub open spec fn pending_ok(pending: Seq<Chunk>, lo: int, hi: int) -> bool {
    &&& forall|i: int|
        0 <= i < pending.len() ==> (#[trigger] pending[i]).start < pending[i].end && pending[i].end
            + i <= hi
    &&& forall|i: int|
        0 <= i < pending.len() - 1 ==> (#[trigger] pending[i]).start == pending[i + 1].end
    &&& pending.len() > 0 ==> pending.last().start == lo && pending[0].end == hi
    &&& pending.len() == 0 ==> lo == hi
}

impl EngineState {
    /// How many records a batch holds at most.
    pub open spec fn batch_span(self) -> int {
        if self.batch_size == 0 {
            self.total as int
        } else {
            self.batch_size as int
        }
    }

    /// The batch that starts at `start`.
    pub open spec fn batch_at(self, start: usize) -> Chunk {
        Chunk {
            start,
            end: if self.total - start <= self.batch_span() {
                self.total
            } else {
                (start + self.batch_span()) as usize
            },
        }
    }

    /// The phase in which the attempt at a chunk begins.
    pub open spec fn first_phase(self) -> Phase {
        if self.resilient {
            Phase::Connecting
        } else {
            Phase::Attempting
        }
    }

    /// A chunk is being worked on.
    pub open spec fn active(self) -> bool {
        self.phase is Connecting || self.phase is Attempting || self.phase is Reconnecting
            || self.phase is Backoff
    }

    /// The engine has come to its end.
    pub open spec fn terminal(self) -> bool {
        self.phase is Succeeded || self.phase is FatallyFailed
    }

    /// What holds of every state that an engine can reach.
    pub open spec fn wf(self) -> bool {
        &&& self.next_start <= self.total
        &&& self.batch_num <= self.next_start
        &&& self.retry.transient_retry_count <= self.limits.max_retries
        &&& self.retry.connection_reset_count <= self.limits.max_connection_resets
        &&& !self.resilient ==> {
            &&& !(self.phase is Connecting) && !(self.phase is Reconnecting)
            &&& self.retry.connection_reset_count == 0
            &&& self.phase != Phase::FatallyFailed(FailureKind::ConnectFailed)
            &&& self.phase != Phase::FatallyFailed(FailureKind::ReconnectFailed)
            &&& self.phase != Phase::FatallyFailed(FailureKind::TooManyConnectionResets)
        }
        &&& self.active() ==> {
            &&& self.current.start < self.current.end <= self.next_start
            &&& pending_ok(self.pending, self.current.end as int, self.next_start as int)
            &&& credit_ok(self.credited, self.current.start as int)
            &&& self.batch_num >= 1
        }
        &&& self.phase is Connecting ==> self.retry == RetryContext::fresh()
        &&& self.phase is Reconnecting ==> self.retry.connection_reset_count >= 1
        &&& self.phase is Backoff ==> self.retry.connection_reset_count >= 1
            || self.retry.transient_retry_count >= 1
        &&& self.phase is Pausing ==> {
            &&& 0 < self.next_start < self.total
            &&& self.pending.len() == 0
            &&& self.retry == RetryContext::fresh()
            &&& credit_ok(self.credited, self.next_start as int)
        }
        &&& self.phase is Succeeded ==> {
            &&& self.next_start == self.total
            &&& self.pending.len() == 0
            &&& credit_ok(self.credited, self.total as int)
        }
        &&& self.phase is FatallyFailed ==> credit_ok(self.credited, self.total as int)
            && self.batch_num >= 1
        &&& self.phase == Phase::FatallyFailed(FailureKind::RetriesExhausted)
            ==> self.retry.transient_retry_count == self.limits.max_retries
        &&& self.phase == Phase::FatallyFailed(FailureKind::TooManyConnectionResets)
            ==> self.retry.connection_reset_count == self.limits.max_connection_resets
    }

    /// The state in which an upload of `total` records begins.
    pub open spec fn start(
        total: usize,
        batch_size: usize,
        limits: RetryLimits,
        resilient: bool,
    ) -> EngineState {
        let blank = EngineState {
            total,
            batch_size,
            limits,
            resilient,
            batch_num: 0,
            next_start: 0,
            pending: Seq::empty(),
            current: Chunk { start: 0, end: 0 },
            retry: RetryContext::fresh(),
            phase: Phase::Succeeded,
            credited: Seq::empty(),
        };
        if total == 0 {
            blank
        } else {
            blank.begin_batch()
        }
    }

    /// The next batch becomes the current chunk.
    pub open spec fn begin_batch(self) -> EngineState {
        let batch = self.batch_at(self.next_start);
        EngineState {
            batch_num: (self.batch_num + 1) as usize,
            next_start: batch.end,
            current: batch,
            retry: RetryContext::fresh(),
            phase: self.first_phase(),
            ..self
        }
    }

    /// The current chunk is done with: the next pending part of the batch is
    /// taken up; if there is none, the engine pauses before the next batch;
    /// if there is no further batch, the upload is complete.
    pub open spec fn advance(self) -> EngineState {
        if self.pending.len() > 0 {
            EngineState {
                pending: self.pending.drop_last(),
                current: self.pending.last(),
                retry: RetryContext::fresh(),
                phase: self.first_phase(),
                ..self
            }
        } else if self.next_start < self.total {
            EngineState { retry: RetryContext::fresh(), phase: Phase::Pausing, ..self }
        } else {
            EngineState { phase: Phase::Succeeded, ..self }
        }
    }

    /// Where the current chunk is cut when it is split: in the middle, rounded down.
    pub open spec fn cut(self) -> usize {
        (self.current.start + self.current.span() / 2) as usize
    }

    /// The current chunk may be split: it holds more than `min_split_size`
    /// records, and more than one.
    pub open spec fn can_split(self) -> bool {
        self.current.span() > self.limits.min_split_size && self.current.span() > 1
    }

    /// The current chunk is halved. The first half becomes the current chunk,
    /// with counters at zero; the second half waits its turn.
    pub open spec fn split(self) -> EngineState {
        EngineState {
            pending: self.pending.push(Chunk { start: self.cut(), end: self.current.end }),
            current: Chunk { start: self.current.start, end: self.cut() },
            retry: RetryContext::fresh(),
            phase: self.first_phase(),
            ..self
        }
    }

    /// The upload is given up.
    pub open spec fn give_up(self, kind: FailureKind) -> EngineState {
        EngineState { phase: Phase::FatallyFailed(kind), ..self }
    }

    /// One more retry on the same connection, if the limit allows it.
    pub open spec fn retry_same(self) -> EngineState {
        if self.retry.transient_retry_count >= self.limits.max_retries {
            self.give_up(FailureKind::RetriesExhausted)
        } else {
            EngineState {
                retry: RetryContext {
                    transient_retry_count: (self.retry.transient_retry_count + 1) as u32,
                    ..self.retry
                },
                phase: Phase::Backoff,
                ..self
            }
        }
    }

    /// One more connection, if the limit allows it.
    pub open spec fn reconnect(self) -> EngineState {
        if self.retry.connection_reset_count >= self.limits.max_connection_resets {
            self.give_up(FailureKind::TooManyConnectionResets)
        } else {
            EngineState {
                retry: RetryContext {
                    connection_reset_count: (self.retry.connection_reset_count + 1) as u32,
                    ..self.retry
                },
                phase: Phase::Reconnecting,
                ..self
            }
        }
    }

    /// The connection was replaced: the retries start over, and the engine
    /// waits before it sends the chunk again.
    pub open spec fn reconnected(self) -> EngineState {
        EngineState {
            retry: RetryContext { transient_retry_count: 0, ..self.retry },
            phase: Phase::Backoff,
            ..self
        }
    }

    /// What follows a failed request, by the kind of the failure.
    pub open spec fn after_failure(self, kind: ErrorKind) -> EngineState {
        match kind {
            ErrorKind::OversizedRequest => if self.can_split() {
                self.split()
            } else {
                self.give_up(FailureKind::TooLargeAtMinimumSize)
            },
            ErrorKind::ConnectionLevel => if self.resilient {
                self.reconnect()
            } else {
                self.retry_same()
            },
            ErrorKind::Transient => self.retry_same(),
            ErrorKind::Fatal => self.give_up(FailureKind::Fatal),
        }
    }

    /// Whether `event` is an answer to what the engine asked for.
    pub open spec fn expects(self, event: Event) -> bool {
        match self.phase {
            Phase::Connecting | Phase::Reconnecting => event is Connected || event
                is ConnectFailed,
            Phase::Attempting => event is Inserted || event is InsertedWithRowErrors || event
                is InsertFailed,
            Phase::Backoff | Phase::Pausing => event is Waited,
            Phase::Succeeded | Phase::FatallyFailed(_) => false,
        }
    }

    /// The state after `event`. An event that the engine did not ask for changes nothing.
    pub open spec fn step(self, event: Event) -> EngineState {
        match (self.phase, event) {
            (Phase::Connecting, Event::Connected) => EngineState {
                phase: Phase::Attempting,
                ..self
            },
            (Phase::Connecting, Event::ConnectFailed) => self.give_up(
                FailureKind::ConnectFailed,
            ),
            (Phase::Reconnecting, Event::Connected) => self.reconnected(),
            (Phase::Reconnecting, Event::ConnectFailed) => self.give_up(
                FailureKind::ReconnectFailed,
            ),
            (Phase::Backoff, Event::Waited) => EngineState { phase: Phase::Attempting, ..self },
            (Phase::Pausing, Event::Waited) => self.begin_batch(),
            (Phase::Attempting, Event::Inserted) => EngineState {
                credited: self.credited.push(self.current),
                ..self
            }.advance(),
            (Phase::Attempting, Event::InsertedWithRowErrors) => self.advance(),
            (Phase::Attempting, Event::InsertFailed(kind)) => self.after_failure(kind),
            _ => self,
        }
    }

    /// How long the engine waits in `Backoff`: after a failed retry, by the
    /// count of retries; after a new connection, by the count of connections.
    pub open spec fn backoff_ms(self) -> int {
        if self.retry.transient_retry_count > 0 {
            self.limits.delay(self.retry.transient_retry_count as nat)
        } else {
            self.limits.delay(self.retry.connection_reset_count as nat)
        }
    }

    /// What the engine asks for in this state.
    pub open spec fn action(self) -> Action {
        match self.phase {
            Phase::Connecting | Phase::Reconnecting => Action::Connect,
            Phase::Attempting => Action::Submit(self.current),
            Phase::Backoff => Action::Wait(self.backoff_ms() as u64),
            Phase::Pausing => Action::Wait(self.limits.inter_batch_delay_ms),
            Phase::Succeeded => Action::Finish,
            Phase::FatallyFailed(kind) => Action::Abort(kind),
        }
    }
}

/// An upload in progress. The engine is made for a number of records, says
/// through [`UploadEngine::action`] what is to be done next, and is told through
/// [`UploadEngine::step`] what came of it, until it asks for nothing more.
pub struct UploadEngine {
    total: usize,
    batch_size: usize,
    limits: RetryLimits,
    resilient: bool,
    batch_num: usize,
    next_start: usize,
    pending: Vec<Chunk>,
    current: Chunk,
    retry: RetryContext,
    phase: Phase,
    credited: Vec<Chunk>,
}

impl View for UploadEngine {
    type V = EngineState;

    closed spec fn view(&self) -> EngineState {
        EngineState {
            total: self.total,
            batch_size: self.batch_size,
            limits: self.limits,
            resilient: self.resilient,
            batch_num: self.batch_num,
            next_start: self.next_start,
            pending: self.pending@,
            current: self.current,
            retry: self.retry,
            phase: self.phase,
            credited: self.credited@,
        }
    }
}

impl UploadEngine {
    #[verifier::type_invariant]
    spec fn inv(&self) -> bool {
        self@.wf()
    }

    /// An engine for the upload of `total` records in batches of `batch_size`;
    /// a `batch_size` of zero stands for one batch of everything. With
    /// `resilient` the engine asks for a connection before each chunk and for a
    /// new one when the connection breaks; without it the caller keeps one
    /// connection, and a broken connection counts as a transient failure.
    pub fn new(total: usize, batch_size: usize, limits: RetryLimits, resilient: bool) -> (engine:
        Self)
        ensures
            engine@ == EngineState::start(total, batch_size, limits, resilient),
            engine@.wf(),
    {
        proof {
            lemma_start_wf(total, batch_size, limits, resilient);
        }
        let fresh = RetryContext { transient_retry_count: 0, connection_reset_count: 0 };
        if total == 0 {
            UploadEngine {
                total,
                batch_size,
                limits,
                resilient,
                batch_num: 0,
                next_start: 0,
                pending: Vec::new(),
                current: Chunk { start: 0, end: 0 },
                retry: fresh,
                phase: Phase::Succeeded,
                credited: Vec::new(),
            }
        } else {
            let end = if batch_size == 0 || total <= batch_size {
                total
            } else {
                batch_size
            };
            UploadEngine {
                total,
                batch_size,
                limits,
                resilient,
                batch_num: 1,
                next_start: end,
                pending: Vec::new(),
                current: Chunk { start: 0, end },
                retry: fresh,
                phase: if resilient {
                    Phase::Connecting
                } else {
                    Phase::Attempting
                },
                credited: Vec::new(),
            }
        }
    }

    /// What the caller is to do next.
    pub fn action(&self) -> (action: Action)
        ensures
            action == self@.action(),
            self@.wf(),
    {
        proof {
            use_type_invariant(self);
        }
        match self.phase {
            Phase::Connecting => Action::Connect,
            Phase::Reconnecting => Action::Connect,
            Phase::Attempting => Action::Submit(self.current),
            Phase::Backoff => {
                let n = if self.retry.transient_retry_count > 0 {
                    self.retry.transient_retry_count
                } else {
                    self.retry.connection_reset_count
                };
                Action::Wait(
                    retry_delay(
                        self.limits.initial_retry_delay_ms,
                        self.limits.max_retry_delay_ms,
                        n,
                    ),
                )
            },
            Phase::Pausing => Action::Wait(self.limits.inter_batch_delay_ms),
            Phase::Succeeded => Action::Finish,
            Phase::FatallyFailed(kind) => Action::Abort(kind),
        }
    }

    /// Tells the engine what came of the action it asked for. An event that is
    /// no answer to that action changes nothing.
    pub fn step(&mut self, event: Event)
        ensures
            final(self)@ == old(self)@.step(event),
            final(self)@.wf(),
    {
        let limits = self.limits;
        let mut taken = UploadEngine::new(0, 0, limits, false);
        std::mem::swap(self, &mut taken);
        let next = taken.next(event);
        proof {
            use_type_invariant(&next);
        }
        *self = next;
    }

    fn next(self, event: Event) -> (out: Self)
        ensures
            out@ == self@.step(event),
    {
        proof {
            use_type_invariant(&self);
            lemma_step_wf(self@, event);
        }
        let ghost before = self@;
        let UploadEngine {
            total,
            batch_size,
            limits,
            resilient,
            mut batch_num,
            mut next_start,
            mut pending,
            mut current,
            mut retry,
            mut phase,
            mut credited,
        } = self;
        let fresh = RetryContext { transient_retry_count: 0, connection_reset_count: 0 };
        let first_phase = if resilient {
            Phase::Connecting
        } else {
            Phase::Attempting
        };
        let mut done_with_chunk = false;
        match (phase, event) {
            (Phase::Connecting, Event::Connected) => {
                phase = Phase::Attempting;
            },
            (Phase::Connecting, Event::ConnectFailed) => {
                phase = Phase::FatallyFailed(FailureKind::ConnectFailed);
            },
            (Phase::Reconnecting, Event::Connected) => {
                retry = RetryContext {
                    transient_retry_count: 0,
                    connection_reset_count: retry.connection_reset_count,
                };
                phase = Phase::Backoff;
            },
            (Phase::Reconnecting, Event::ConnectFailed) => {
                phase = Phase::FatallyFailed(FailureKind::ReconnectFailed);
            },
            (Phase::Backoff, Event::Waited) => {
                phase = Phase::Attempting;
            },
            (Phase::Pausing, Event::Waited) => {
                let span = if batch_size == 0 {
                    total
                } else {
                    batch_size
                };
                let end = if total - next_start <= span {
                    total
                } else {
                    next_start + span
                };
                batch_num = batch_num + 1;
                current = Chunk { start: next_start, end };
                next_start = end;
                retry = fresh;
                phase = first_phase;
            },
            (Phase::Attempting, Event::Inserted) => {
                credited.push(current);
                done_with_chunk = true;
            },
            (Phase::Attempting, Event::InsertedWithRowErrors) => {
                done_with_chunk = true;
            },
            (Phase::Attempting, Event::InsertFailed(kind)) => {
                let span = current.end - current.start;
                let retry_same = match kind {
                    ErrorKind::OversizedRequest => {
                        if span > limits.min_split_size && span > 1 {
                            let cut = current.start + span / 2;
                            pending.push(Chunk { start: cut, end: current.end });
                            current = Chunk { start: current.start, end: cut };
                            retry = fresh;
                            phase = first_phase;
                        } else {
                            phase = Phase::FatallyFailed(FailureKind::TooLargeAtMinimumSize);
                        }
                        false
                    },
                    ErrorKind::ConnectionLevel => {
                        if resilient {
                            if retry.connection_reset_count >= limits.max_connection_resets {
                                phase = Phase::FatallyFailed(
                                    FailureKind::TooManyConnectionResets,
                                );
                            } else {
                                retry = RetryContext {
                                    transient_retry_count: retry.transient_retry_count,
                                    connection_reset_count: retry.connection_reset_count + 1,
                                };
                                phase = Phase::Reconnecting;
                            }
                            false
                        } else {
                            true
                        }
                    },
                    ErrorKind::Transient => true,
                    ErrorKind::Fatal => {
                        phase = Phase::FatallyFailed(FailureKind::Fatal);
                        false
                    },
                };
                if retry_same {
                    if retry.transient_retry_count >= limits.max_retries {
                        phase = Phase::FatallyFailed(FailureKind::RetriesExhausted);
                    } else {
                        retry = RetryContext {
                            transient_retry_count: retry.transient_retry_count + 1,
                            connection_reset_count: retry.connection_reset_count,
                        };
                        phase = Phase::Backoff;
                    }
                }
            },
            _ => {},
        }
        if done_with_chunk {
            let ghost stack = pending@;
            match pending.pop() {
                Some(top) => {
                    proof {
                        assert(pending@ =~= stack.drop_last());
                    }
                    current = top;
                    retry = fresh;
                    phase = first_phase;
                },
                None => {
                    if next_start < total {
                        retry = fresh;
                        phase = Phase::Pausing;
                    } else {
                        phase = Phase::Succeeded;
                    }
                },
            }
        }
        let ghost after = EngineState {
            total,
            batch_size,
            limits,
            resilient,
            batch_num,
            next_start,
            pending: pending@,
            current,
            retry,
            phase,
            credited: credited@,
        };
        proof {
            assert(after.pending =~= before.step(event).pending);
            assert(after.credited =~= before.step(event).credited);
            assert(after == before.step(event));
        }
        UploadEngine {
            total,
            batch_size,
            limits,
            resilient,
            batch_num,
            next_start,
            pending,
            current,
            retry,
            phase,
            credited,
        }
    }

    /// Where the engine stands.
    pub fn phase(&self) -> (phase: Phase)
        ensures
            phase == self@.phase,
    {
        self.phase
    }

    /// Whether the engine has come to its end.
    pub fn is_done(&self) -> (done: bool)
        ensures
            done == self@.terminal(),
    {
        match self.phase {
            Phase::Succeeded => true,
            Phase::FatallyFailed(_) => true,
            _ => false,
        }
    }

    /// The number of the batch that is being uploaded, counted from 1.
    pub fn batch_num(&self) -> (n: usize)
        ensures
            n == self@.batch_num,
    {
        self.batch_num
    }

    /// The counters of the attempt at the current chunk.
    pub fn retry_context(&self) -> (retry: RetryContext)
        ensures
            retry == self@.retry,
    {
        self.retry
    }

    /// The chunks that the sink took without row errors, in order.
    pub fn credited(&self) -> (credited: &Vec<Chunk>)
        ensures
            credited@ == self@.credited,
            credit_ok(credited@, self@.total as int),
    {
        proof {
            use_type_invariant(self);
        }
        &self.credited
    }
}

} // verus!
