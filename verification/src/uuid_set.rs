//! A set of record ids that remembers the order in which the ids came.

use vstd::prelude::*;
use vstd::hash_set::StringHashSet;
use crate::failure::texts;

verus! {

/// Appending an item to a sequence adds it to the set of the sequence's items.
pub proof fn lemma_push_to_set<T>(s: Seq<T>, x: T)
    ensures
        s.push(x).to_set() == s.to_set().insert(x),
{
    assert forall|y: T| s.push(x).to_set().contains(y) <==> s.to_set().insert(x).contains(
        y,
    ) by {
        if s.push(x).contains(y) {
            let i = choose|i: int| 0 <= i < s.push(x).len() && s.push(x)[i] == y;
            if i < s.len() {
                assert(s[i] == y);
            }
        }
        if s.contains(y) {
            let i = choose|i: int| 0 <= i < s.len() && s[i] == y;
            assert(s.push(x)[i] == y);
        }
        if y == x {
            assert(s.push(x)[s.len() as int] == y);
        }
    }
    assert(s.push(x).to_set() =~= s.to_set().insert(x));
}

/// A set of ids. Membership is answered by hashing; the ids can also be listed,
/// each once, in the order in which they were first inserted.
pub struct UuidSet {
    items: Vec<String>,
    lookup: StringHashSet,
}

impl View for UuidSet {
    type V = Set<Seq<char>>;

    closed spec fn view(&self) -> Set<Seq<char>> {
        self.lookup@
    }
}

impl UuidSet {
    #[verifier::type_invariant]
    spec fn inv(&self) -> bool {
        &&& texts(self.items@).no_duplicates()
        &&& self.lookup@ == texts(self.items@).to_set()
    }

    /// The empty set.
    pub fn new() -> (set: Self)
        ensures
            set@ == Set::<Seq<char>>::empty(),
    {
        let items: Vec<String> = Vec::new();
        let lookup = StringHashSet::new();
        proof {
            assert(texts(items@) =~= Seq::<Seq<char>>::empty());
            assert(texts(items@).to_set() =~= Set::<Seq<char>>::empty());
        }
        UuidSet { items, lookup }
    }

    /// Whether `uuid` is in the set.
    pub fn contains(&self, uuid: &str) -> (found: bool)
        ensures
            found == self@.contains(uuid@),
    {
        self.lookup.contains(uuid)
    }

    /// How many ids the set holds.
    pub fn len(&self) -> (n: usize)
        ensures
            n == self@.len(),
            self@.finite(),
    {
        proof {
            use_type_invariant(self);
            texts(self.items@).unique_seq_to_set();
        }
        self.items.len()
    }

    /// Whether the set holds no id.
    pub fn is_empty(&self) -> (empty: bool)
        ensures
            empty == (self@ == Set::<Seq<char>>::empty()),
    {
        proof {
            use_type_invariant(self);
            texts(self.items@).unique_seq_to_set();
            if self.items@.len() > 0 {
                assert(texts(self.items@).to_set().contains(texts(self.items@)[0]));
            } else {
                assert(self@ =~= Set::<Seq<char>>::empty());
            }
        }
        self.items.len() == 0
    }

    /// Adds `uuid`; says whether it was new to the set.
    pub fn insert(&mut self, uuid: String) -> (fresh: bool)
        ensures
            final(self)@ == old(self)@.insert(uuid@),
            fresh == !old(self)@.contains(uuid@),
    {
        proof {
            use_type_invariant(&*self);
        }
        if self.lookup.contains(uuid.as_str()) {
            assert(self@.insert(uuid@) =~= self@);
            return false;
        }
        let mut taken = UuidSet::new();
        std::mem::swap(self, &mut taken);
        let UuidSet { mut items, mut lookup } = taken;
        let ghost before = texts(items@);
        lookup.insert(uuid.clone());
        items.push(uuid);
        proof {
            assert(texts(items@) =~= before.push(uuid@));
            lemma_push_to_set(before, uuid@);
            assert(!before.contains(uuid@));
        }
        *self = UuidSet { items, lookup };
        true
    }

    /// The ids of the set, each once, in the order of their first insertion.
    pub fn to_vec(&self) -> (ids: Vec<String>)
        ensures
            texts(ids@).no_duplicates(),
            texts(ids@).to_set() == self@,
    {
        proof {
            use_type_invariant(self);
        }
        let n = self.items.len();
        let mut ids: Vec<String> = Vec::new();
        let mut i: usize = 0;
        while i < n
            invariant
                n == self.items.len(),
                i <= n,
                ids@ == self.items@.take(i as int),
            decreases n - i,
        {
            ids.push(self.items[i].clone());
            proof {
                assert(ids@ =~= self.items@.take(i + 1));
            }
            i += 1;
        }
        proof {
            assert(ids@ =~= self.items@);
        }
        ids
    }

    /// The set of the given ids; an id that occurs twice is held once.
    pub fn from_vec(ids: Vec<String>) -> (set: Self)
        ensures
            set@ == texts(ids@).to_set(),
    {
        let mut set = UuidSet::new();
        let n = ids.len();
        let mut i: usize = 0;
        proof {
            assert(texts(ids@).take(0).to_set() =~= Set::<Seq<char>>::empty());
        }
        while i < n
            invariant
                n == ids.len(),
                i <= n,
                set@ == texts(ids@).take(i as int).to_set(),
            decreases n - i,
        {
            proof {
                lemma_push_to_set(texts(ids@).take(i as int), ids@[i as int]@);
                assert(texts(ids@).take(i as int).push(ids@[i as int]@) =~= texts(ids@).take(
                    i + 1,
                ));
            }
            set.insert(ids[i].clone());
            i += 1;
        }
        proof {
            assert(texts(ids@).take(n as int) =~= texts(ids@));
        }
        set
    }
}

impl Clone for UuidSet {
    fn clone(&self) -> (copy: Self)
        ensures
            copy@ == self@,
    {
        UuidSet::from_vec(self.to_vec())
    }
}

} // verus!
