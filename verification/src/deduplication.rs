//! Leaving out the records that were uploaded before.

use vstd::prelude::*;
use crate::failure::texts;
use crate::session_log::{uuids_of, SessionLog};
use crate::uuid_set::UuidSet;

verus! {

/// The records of `logs` whose id is not in `uploaded`, in their order.
pub open spec fn not_uploaded(logs: Seq<SessionLog>, uploaded: Set<Seq<char>>) -> Seq<
    SessionLog,
> {
    logs.filter(|log: SessionLog| !uploaded.contains(log.uuid@))
}

/// The rules of deduplication.
pub struct DeduplicationService;

impl DeduplicationService {
    /// With `enabled`, the records of `logs` whose id is not in
    /// `uploaded_uuids`, in their order; without it, `logs` as it is.
    pub fn filter_duplicates(logs: Vec<SessionLog>, uploaded_uuids: &UuidSet, enabled: bool) -> (kept:
        Vec<SessionLog>)
        ensures
            !enabled ==> kept@ == logs@,
            enabled ==> kept@ == not_uploaded(logs@, uploaded_uuids@),
    {
        if !enabled {
            return logs;
        }
        let n = logs.len();
        let mut kept: Vec<SessionLog> = Vec::new();
        let mut i: usize = 0;
        proof {
            reveal(Seq::filter);
            assert(logs@.take(0) =~= Seq::<SessionLog>::empty());
        }
        while i < n
            invariant
                n == logs.len(),
                i <= n,
                kept@ == not_uploaded(logs@.take(i as int), uploaded_uuids@),
            decreases n - i,
        {
            proof {
                reveal(Seq::filter);
                assert(logs@.take(i + 1).drop_last() =~= logs@.take(i as int));
                assert(logs@.take(i + 1).last() == logs@[i as int]);
            }
            if !uploaded_uuids.contains(logs[i].uuid.as_str()) {
                kept.push(logs[i].clone());
            }
            i += 1;
        }
        proof {
            assert(logs@.take(n as int) =~= logs@);
        }
        kept
    }

    /// The ids of `logs`, in order.
    pub fn extract_uuids(logs: &Vec<SessionLog>) -> (uuids: Vec<String>)
        ensures
            texts(uuids@) == uuids_of(logs@),
    {
        let uuids = crate::batch_uploader::uuids_in(logs, 0, logs.len());
        proof {
            assert(uuids_of(logs@).subrange(0, logs@.len() as int) =~= uuids_of(logs@));
        }
        uuids
    }
}

/// No record that is kept was uploaded before, every record that was not
/// uploaded before is kept, and nothing is kept that was not there.
pub proof fn lemma_not_uploaded(logs: Seq<SessionLog>, uploaded: Set<Seq<char>>)
    ensures
        forall|i: int|
            0 <= i < not_uploaded(logs, uploaded).len() ==> !uploaded.contains(
                (#[trigger] not_uploaded(logs, uploaded)[i]).uuid@,
            ) && logs.contains(not_uploaded(logs, uploaded)[i]),
        forall|i: int|
            0 <= i < logs.len() && !uploaded.contains((#[trigger] logs[i]).uuid@)
                ==> not_uploaded(logs, uploaded).contains(logs[i]),
        not_uploaded(logs, uploaded).len() <= logs.len(),
{
    let keep = |log: SessionLog| !uploaded.contains(log.uuid@);
    logs.lemma_filter_len(keep);
    assert forall|i: int| 0 <= i < logs.filter(keep).len() implies !uploaded.contains(
        (#[trigger] logs.filter(keep)[i]).uuid@,
    ) && logs.contains(logs.filter(keep)[i]) by {
        logs.lemma_filter_pred(keep, i);
        logs.lemma_filter_contains_rev(keep, logs.filter(keep)[i]);
    }
    assert forall|i: int|
        0 <= i < logs.len() && !uploaded.contains((#[trigger] logs[i]).uuid@) implies logs.filter(
        keep,
    ).contains(logs[i]) by {
        logs.lemma_filter_contains(keep, i);
    }
}

/// With nothing uploaded before, every record is kept.
pub proof fn lemma_not_uploaded_of_nothing(logs: Seq<SessionLog>)
    ensures
        not_uploaded(logs, Set::empty()) == logs,
    decreases logs.len(),
{
    reveal(Seq::filter);
    if logs.len() > 0 {
        lemma_not_uploaded_of_nothing(logs.drop_last());
        assert(logs.drop_last().push(logs.last()) =~= logs);
    }
}

/// Once the ids of some records are merged into the uploaded ids, none of
/// those records is kept: a second run uploads none of them again.
pub proof fn lemma_uploaded_are_left_out(
    logs: Seq<SessionLog>,
    known: Set<Seq<char>>,
    ids: Seq<Seq<char>>,
)
    requires
        forall|i: int| 0 <= i < logs.len() ==> ids.contains((#[trigger] logs[i]).uuid@),
    ensures
        not_uploaded(logs, known.union(ids.to_set())).len() == 0,
    decreases logs.len(),
{
    reveal(Seq::filter);
    if logs.len() > 0 {
        assert forall|i: int| 0 <= i < logs.drop_last().len() implies ids.contains(
            (#[trigger] logs.drop_last()[i]).uuid@,
        ) by {
            assert(logs.drop_last()[i] == logs[i]);
        }
        lemma_uploaded_are_left_out(logs.drop_last(), known, ids);
        assert(ids.contains(logs[logs.len() - 1].uuid@));
    }
}

} // verus!
