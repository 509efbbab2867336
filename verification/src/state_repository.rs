//! The durable record of what was uploaded before.

use vstd::prelude::*;
use crate::failure::{texts, Failure};
use crate::session_log::copy_text;
use crate::uuid_set::{lemma_push_to_set, UuidSet};

verus! {

/// What is known of earlier uploads.
pub struct UploadState {
    /// When the last upload was recorded, as RFC 3339 text.
    pub last_upload_timestamp: Option<String>,
    /// The ids of the records that were uploaded.
    pub uploaded_uuids: UuidSet,
    /// The batch id of the last upload that was recorded.
    pub last_upload_batch_id: Option<String>,
    /// How many records were uploaded in all; it never goes down.
    pub total_uploaded: u64,
}

/// How many of `ids` are not in `known`, an id that occurs twice counted once.
pub open spec fn newly_added(known: Set<Seq<char>>, ids: Seq<Seq<char>>) -> nat {
    ids.to_set().difference(known).len()
}

/// The sum of a counter and an increase, held at the largest value of the counter.
pub open spec fn capped_sum(total: u64, added: nat) -> u64 {
    if total + added <= u64::MAX {
        (total + added) as u64
    } else {
        u64::MAX
    }
}

proof fn lemma_newly_added_step(known: Set<Seq<char>>, seen: Seq<Seq<char>>, id: Seq<char>)
    ensures
        newly_added(known, seen.push(id)) == newly_added(known, seen) + (if known.contains(id)
            || seen.to_set().contains(id) {
            0nat
        } else {
            1nat
        }),
        newly_added(known, seen) <= seen.len(),
{
    broadcast use vstd::seq_lib::seq_to_set_is_finite;

    lemma_push_to_set(seen, id);
    let before = seen.to_set().difference(known);
    let after = seen.push(id).to_set().difference(known);
    if known.contains(id) || seen.to_set().contains(id) {
        assert(after =~= before);
    } else {
        assert(after =~= before.insert(id));
    }
    vstd::set_lib::lemma_len_difference(seen.to_set(), known);
    seen.lemma_cardinality_of_set();
}

impl UploadState {
    /// The state before anything was uploaded.
    pub fn new() -> (state: Self)
        ensures
            state.last_upload_timestamp is None,
            state.uploaded_uuids@ == Set::<Seq<char>>::empty(),
            state.last_upload_batch_id is None,
            state.total_uploaded == 0,
    {
        UploadState {
            last_upload_timestamp: None,
            uploaded_uuids: UuidSet::new(),
            last_upload_batch_id: None,
            total_uploaded: 0,
        }
    }

    /// Whether the record with the id `uuid` was uploaded.
    pub fn is_uploaded(&self, uuid: &str) -> (known: bool)
        ensures
            known == self.uploaded_uuids@.contains(uuid@),
    {
        self.uploaded_uuids.contains(uuid)
    }

    /// Marks the records with the ids `uuids` as uploaded by the batch
    /// `batch_id` at `timestamp`. The count of uploaded records is left as it is.
    pub fn add_uploaded(&mut self, uuids: Vec<String>, batch_id: String, timestamp: String)
        ensures
            final(self).uploaded_uuids@ == old(self).uploaded_uuids@.union(texts(uuids@).to_set()),
            final(self).last_upload_batch_id == Some(batch_id),
            final(self).last_upload_timestamp == Some(timestamp),
            final(self).total_uploaded == old(self).total_uploaded,
    {
        self.insert_all(&uuids);
        self.last_upload_batch_id = Some(batch_id);
        self.last_upload_timestamp = Some(timestamp);
    }

    /// Merges the ids `uuids` into the uploaded ids and counts those that were
    /// new: the count of uploaded records grows by that number, an id that was
    /// known or that occurs twice in `uuids` counting once at most. The batch
    /// id and the time of the last upload are set. Returns how many ids were new.
    pub fn merge_uploaded(&mut self, uuids: Vec<String>, batch_id: String, timestamp: String) -> (added:
        u64)
        ensures
            final(self).uploaded_uuids@ == old(self).uploaded_uuids@.union(texts(uuids@).to_set()),
            added == newly_added(old(self).uploaded_uuids@, texts(uuids@)),
            final(self).total_uploaded == capped_sum(old(self).total_uploaded, added as nat),
            final(self).total_uploaded >= old(self).total_uploaded,
            final(self).last_upload_batch_id == Some(batch_id),
            final(self).last_upload_timestamp == Some(timestamp),
    {
        let added = self.insert_all(&uuids);
        self.total_uploaded = if added > u64::MAX - self.total_uploaded {
            u64::MAX
        } else {
            self.total_uploaded + added
        };
        self.last_upload_batch_id = Some(batch_id);
        self.last_upload_timestamp = Some(timestamp);
        added
    }

    /// Inserts the ids `uuids` and counts those that were new.
    fn insert_all(&mut self, uuids: &Vec<String>) -> (added: u64)
        ensures
            final(self).uploaded_uuids@ == old(self).uploaded_uuids@.union(texts(uuids@).to_set()),
            added == newly_added(old(self).uploaded_uuids@, texts(uuids@)),
            final(self).total_uploaded == old(self).total_uploaded,
            final(self).last_upload_batch_id == old(self).last_upload_batch_id,
            final(self).last_upload_timestamp == old(self).last_upload_timestamp,
    {
        let ghost known = self.uploaded_uuids@;
        let ghost ids = texts(uuids@);
        let n = uuids.len();
        let mut added: u64 = 0;
        let mut i: usize = 0;
        proof {
            assert(ids.take(0).to_set() =~= Set::<Seq<char>>::empty());
            assert(known.union(ids.take(0).to_set()) =~= known);
            assert(ids.take(0).to_set().difference(known) =~= Set::<Seq<char>>::empty());
        }
        while i < n
            invariant
                n == uuids.len(),
                i <= n,
                ids == texts(uuids@),
                added <= i,
                self.uploaded_uuids@ == known.union(ids.take(i as int).to_set()),
                added == newly_added(known, ids.take(i as int)),
                self.total_uploaded == old(self).total_uploaded,
                self.last_upload_batch_id == old(self).last_upload_batch_id,
                self.last_upload_timestamp == old(self).last_upload_timestamp,
            decreases n - i,
        {
            let ghost seen = ids.take(i as int);
            proof {
                lemma_newly_added_step(known, seen, ids[i as int]);
                lemma_push_to_set(seen, ids[i as int]);
                assert(seen.push(ids[i as int]) =~= ids.take(i + 1));
                assert(known.union(seen.to_set()).insert(ids[i as int]) =~= known.union(
                    seen.to_set().insert(ids[i as int]),
                ));
            }
            if self.uploaded_uuids.insert(uuids[i].clone()) {
                added = added + 1;
            }
            i += 1;
        }
        proof {
            assert(ids.take(n as int) =~= ids);
        }
        added
    }
}

impl Default for UploadState {
    fn default() -> (state: Self)
        ensures
            state.last_upload_timestamp is None,
            state.uploaded_uuids@ == Set::<Seq<char>>::empty(),
            state.last_upload_batch_id is None,
            state.total_uploaded == 0,
    {
        UploadState::new()
    }
}

impl Clone for UploadState {
    fn clone(&self) -> (copy: Self)
        ensures
            copy.last_upload_timestamp == self.last_upload_timestamp,
            copy.uploaded_uuids@ == self.uploaded_uuids@,
            copy.last_upload_batch_id == self.last_upload_batch_id,
            copy.total_uploaded == self.total_uploaded,
    {
        UploadState {
            last_upload_timestamp: copy_text(&self.last_upload_timestamp),
            uploaded_uuids: self.uploaded_uuids.clone(),
            last_upload_batch_id: copy_text(&self.last_upload_batch_id),
            total_uploaded: self.total_uploaded,
        }
    }
}

/// Merging the same ids a second time changes neither the uploaded ids nor
/// the count: no id is new the second time.
pub proof fn lemma_merge_is_idempotent(known: Set<Seq<char>>, total: u64, ids: Seq<Seq<char>>)
    ensures
        ({
            let once = known.union(ids.to_set());
            let counted = capped_sum(total, newly_added(known, ids));
            &&& once.union(ids.to_set()) == once
            &&& newly_added(once, ids) == 0
            &&& capped_sum(counted, newly_added(once, ids)) == counted
        }),
{
    let once = known.union(ids.to_set());
    assert(once.union(ids.to_set()) =~= once);
    assert(ids.to_set().difference(once) =~= Set::<Seq<char>>::empty());
}

/// The uploaded ids only grow, and every id that is merged is known afterwards.
pub proof fn lemma_merge_grows(known: Set<Seq<char>>, ids: Seq<Seq<char>>)
    ensures
        known.subset_of(known.union(ids.to_set())),
        forall|i: int| 0 <= i < ids.len() ==> known.union(ids.to_set()).contains(#[trigger] ids[i]),
{
    assert forall|i: int| 0 <= i < ids.len() implies known.union(ids.to_set()).contains(
        #[trigger] ids[i],
    ) by {
        assert(ids.contains(ids[i]));
    }
}

/// Where the upload state is kept between runs.
pub trait StateRepository {
    /// The state that is kept under `path`; where nothing is kept, the state
    /// before anything was uploaded.
    fn load(&mut self, path: &str) -> Result<UploadState, Failure>;

    /// Keeps `state` under `path`.
    fn save(&mut self, path: &str, state: &UploadState) -> Result<(), Failure>;
}

} // verus!
