//! Batches of records and how a batch is cut into chunks.

use vstd::prelude::*;
use crate::session_log::SessionLog;

verus! {

/// `s` cut into consecutive chunks of `size` items; only the last chunk may be
/// shorter. A `size` of zero stands for "do not cut": the one chunk is `s` itself.
pub open spec fn partition<T>(s: Seq<T>, size: nat) -> Seq<Seq<T>>
    decreases s.len(),
{
    if size == 0 {
        seq![s]
    } else if s.len() == 0 {
        Seq::empty()
    } else if s.len() <= size {
        seq![s]
    } else {
        seq![s.take(size as int)] + partition(s.skip(size as int), size)
    }
}

/// Putting the chunks of a partition back together gives the sequence that was
/// cut, in its order, whatever the chunk size.
pub proof fn lemma_partition_concat<T>(s: Seq<T>, size: nat)
    ensures
        partition(s, size).flatten() == s,
    decreases s.len(),
{
    if size == 0 || (s.len() > 0 && s.len() <= size) {
        seq![s].lemma_flatten_one_element();
    } else if s.len() == 0 {
        assert(partition(s, size).flatten() =~= s);
    } else {
        let head = s.take(size as int);
        let rest = partition(s.skip(size as int), size);
        lemma_partition_concat(s.skip(size as int), size);
        let all = seq![head] + rest;
        assert(all.first() == head);
        assert(all.drop_first() =~= rest);
        assert(head + s.skip(size as int) =~= s);
    }
}

/// With a chunk size of zero the partition is the one chunk that holds everything.
pub proof fn lemma_partition_unsplit<T>(s: Seq<T>)
    ensures
        partition(s, 0) == seq![s],
{
}

/// The number of chunks: the length divided by the size, rounded up.
pub proof fn lemma_partition_len<T>(s: Seq<T>, size: nat)
    requires
        size >= 1,
    ensures
        partition(s, size).len() == (s.len() + size - 1) / (size as int),
    decreases s.len(),
{
    if s.len() == 0 {
        assert((size - 1) / (size as int) == 0) by (nonlinear_arith)
            requires
                size >= 1,
        ;
    } else if s.len() <= size {
        assert((s.len() + size - 1) / (size as int) == 1) by (nonlinear_arith)
            requires
                1 <= s.len() <= size,
        ;
    } else {
        let rest = s.skip(size as int);
        lemma_partition_len(rest, size);
        assert((s.len() + size - 1) / (size as int) == (rest.len() + size - 1) / (size as int)
            + 1) by (nonlinear_arith)
            requires
                rest.len() == s.len() - size,
                size >= 1,
        ;
    }
}

/// Chunk `i` of a partition is the run of `size` items that starts at `i * size`,
/// cut off at the end of the sequence.
pub proof fn lemma_partition_chunk<T>(s: Seq<T>, size: nat, i: int)
    requires
        size >= 1,
        0 <= i < partition(s, size).len(),
    ensures
        i * size < s.len(),
        partition(s, size)[i] == s.subrange(
            i * size,
            if (i + 1) * size <= s.len() {
                (i + 1) * size
            } else {
                s.len() as int
            },
        ),
    decreases s.len(),
{
    if s.len() == 0 {
    } else if s.len() <= size {
        assert(i == 0);
        assert(s.subrange(0, s.len() as int) =~= s);
        assert(i * size == 0 && (i + 1) * size == size) by (nonlinear_arith)
            requires
                i == 0,
        ;
    } else {
        let rest = s.skip(size as int);
        if i == 0 {
            assert(i * size == 0 && (i + 1) * size == size) by (nonlinear_arith)
                requires
                    i == 0,
            ;
            assert(s.take(size as int) =~= s.subrange(0, size as int));
        } else {
            lemma_partition_chunk(rest, size, i - 1);
            assert((i - 1) * size == i * size - size && ((i - 1) + 1) * size == (i + 1) * size
                - size) by (nonlinear_arith);
            let hi = if (i + 1) * size <= s.len() {
                (i + 1) * size
            } else {
                s.len() as int
            };
            assert(rest.subrange(i * size - size, hi - size) =~= s.subrange(i * size, hi));
        }
    }
}

/// An ordered group of records that is uploaded together.
#[derive(Debug)]
pub struct UploadBatch {
    logs: Vec<SessionLog>,
}

impl View for UploadBatch {
    type V = Seq<SessionLog>;

    closed spec fn view(&self) -> Seq<SessionLog> {
        self.logs@
    }
}

impl Clone for UploadBatch {
    fn clone(&self) -> (copy: Self)
        ensures
            copy@ == self@,
    {
        UploadBatch { logs: copy_logs(&self.logs, 0, self.logs.len()) }
    }
}

/// The records of each batch of a list.
pub open spec fn batch_views(batches: Seq<UploadBatch>) -> Seq<Seq<SessionLog>> {
    batches.map_values(|b: UploadBatch| b@)
}

/// Copies of the records `logs[from..to]`.
pub fn copy_logs(logs: &Vec<SessionLog>, from: usize, to: usize) -> (copy: Vec<SessionLog>)
    requires
        from <= to <= logs.len(),
    ensures
        copy@ == logs@.subrange(from as int, to as int),
{
    let mut copy: Vec<SessionLog> = Vec::new();
    let mut i: usize = from;
    while i < to
        invariant
            from <= i <= to <= logs.len(),
            copy@ == logs@.subrange(from as int, i as int),
        decreases to - i,
    {
        copy.push(logs[i].clone());
        proof {
            assert(copy@ =~= logs@.subrange(from as int, i + 1));
        }
        i += 1;
    }
    copy
}

impl UploadBatch {
    /// A batch of the given records.
    pub fn new(logs: Vec<SessionLog>) -> (batch: Self)
        ensures
            batch@ == logs@,
    {
        UploadBatch { logs }
    }

    /// How many records the batch holds.
    pub fn len(&self) -> (n: usize)
        ensures
            n == self@.len(),
    {
        self.logs.len()
    }

    /// Whether the batch holds no record.
    pub fn is_empty(&self) -> (empty: bool)
        ensures
            empty == (self@.len() == 0),
    {
        self.logs.len() == 0
    }

    /// The records of the batch.
    pub fn logs(&self) -> (logs: &Vec<SessionLog>)
        ensures
            logs@ == self@,
    {
        &self.logs
    }

    /// Gives up the batch for its records.
    pub fn into_logs(self) -> (logs: Vec<SessionLog>)
        ensures
            logs@ == self@,
    {
        self.logs
    }

    /// Cuts the batch into batches of `batch_size` records; zero leaves it whole.
    pub fn split_by_size(self, batch_size: usize) -> (batches: Vec<UploadBatch>)
        ensures
            batch_views(batches@) == partition(self@, batch_size as nat),
    {
        if batch_size == 0 {
            let ghost whole = self@;
            let mut batches: Vec<UploadBatch> = Vec::new();
            batches.push(self);
            proof {
                assert(batch_views(batches@) =~= seq![whole]);
            }
            return batches;
        }
        let n = self.logs.len();
        let mut batches: Vec<UploadBatch> = Vec::new();
        let mut pos: usize = 0;
        proof {
            assert(self@.skip(0) =~= self@);
            assert(batch_views(batches@) =~= Seq::<Seq<SessionLog>>::empty());
            assert(Seq::<Seq<SessionLog>>::empty() + partition(self@, batch_size as nat)
                =~= partition(self@, batch_size as nat));
        }
        while pos < n
            invariant
                batch_size >= 1,
                n == self.logs.len(),
                pos <= n,
                batch_views(batches@) + partition(self@.skip(pos as int), batch_size as nat)
                    == partition(self@, batch_size as nat),
            decreases n - pos,
        {
            let end = if n - pos <= batch_size {
                n
            } else {
                pos + batch_size
            };
            let ghost rest = self@.skip(pos as int);
            let ghost done = batch_views(batches@);
            let chunk = copy_logs(&self.logs, pos, end);
            batches.push(UploadBatch::new(chunk));
            proof {
                assert(batch_views(batches@) =~= done.push(chunk@));
                if n - pos <= batch_size {
                    assert(chunk@ =~= rest);
                    assert(self@.skip(n as int).len() == 0);
                    assert(partition(rest, batch_size as nat) =~= seq![rest]);
                    assert(partition(self@.skip(n as int), batch_size as nat)
                        =~= Seq::<Seq<SessionLog>>::empty());
                    assert(done.push(chunk@) + Seq::<Seq<SessionLog>>::empty() =~= done
                        + seq![rest]);
                } else {
                    assert(chunk@ =~= rest.take(batch_size as int));
                    assert(rest.skip(batch_size as int) =~= self@.skip(end as int));
                    assert(done.push(chunk@) + partition(
                        self@.skip(end as int),
                        batch_size as nat,
                    ) =~= done + (seq![rest.take(batch_size as int)] + partition(
                        rest.skip(batch_size as int),
                        batch_size as nat,
                    )));
                }
            }
            pos = end;
        }
        proof {
            assert(self@.skip(n as int).len() == 0);
            assert(batch_views(batches@) + Seq::<Seq<SessionLog>>::empty() =~= batch_views(
                batches@,
            ));
        }
        batches
    }

    /// Cuts the batch in the middle; with an odd count the second half is the
    /// longer one. A batch of at most one record comes back whole, beside an
    /// empty batch.
    pub fn split_half(self) -> (halves: (UploadBatch, UploadBatch))
        ensures
            self@.len() <= 1 ==> halves.0@ == self@ && halves.1@.len() == 0,
            self@.len() > 1 ==> halves.0@ == self@.take((self@.len() / 2) as int) && halves.1@
                == self@.skip((self@.len() / 2) as int),
    {
        if self.logs.len() <= 1 {
            return (self, UploadBatch::new(Vec::new()));
        }
        let mid = self.logs.len() / 2;
        let mut logs = self.logs;
        let second_half = logs.split_off(mid);
        (UploadBatch::new(logs), UploadBatch::new(second_half))
    }
}

impl UploadBatch {
    /// The batch of the given records.
    pub closed spec fn of(logs: Vec<SessionLog>) -> UploadBatch {
        UploadBatch { logs }
    }

    /// The records of a batch, as a vector.
    pub closed spec fn records(self) -> Vec<SessionLog> {
        self.logs
    }

    /// The batch of some records holds those records, and gives them back.
    pub proof fn lemma_of(logs: Vec<SessionLog>)
        ensures
            UploadBatch::of(logs)@ == logs@,
            UploadBatch::of(logs).records() == logs,
    {
    }
}

impl From<Vec<SessionLog>> for UploadBatch {
    fn from(logs: Vec<SessionLog>) -> (batch: Self) {
        UploadBatch { logs }
    }
}

impl vstd::std_specs::convert::FromSpecImpl<Vec<SessionLog>> for UploadBatch {
    open spec fn obeys_from_spec() -> bool {
        true
    }

    open spec fn from_spec(logs: Vec<SessionLog>) -> Self {
        UploadBatch::of(logs)
    }
}

impl From<UploadBatch> for Vec<SessionLog> {
    fn from(batch: UploadBatch) -> (logs: Self) {
        batch.logs
    }
}

impl vstd::std_specs::convert::FromSpecImpl<UploadBatch> for Vec<SessionLog> {
    open spec fn obeys_from_spec() -> bool {
        true
    }

    open spec fn from_spec(batch: UploadBatch) -> Self {
        batch.records()
    }
}

} // verus!
