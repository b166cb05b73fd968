//! A list without duplicates that remembers the order of insertion and finds
//! an entry again through its digest.

use crate::digest::Keyed;
use std::collections::HashMap;
use vstd::prelude::*;

verus! {

/// The slots filed under digest `digest`, or none where the index has no
/// such digest.
pub open spec fn bucket(index: Map<u64, Vec<usize>>, digest: u64) -> Seq<usize> {
    if index.contains_key(digest) {
        index[digest]@
    } else {
        Seq::empty()
    }
}

/// Distinct values in the order in which they were first added. The digest
/// of a value leads to the few slots that can hold it, so a lookup compares
/// the value with those alone.
pub struct DedupList<K: Keyed> {
    items: Vec<K>,
    index: HashMap<u64, Vec<usize>>,
}

impl<K: Keyed> View for DedupList<K> {
    type V = Seq<K::V>;

    /// The models of the values held, first added first.
    closed spec fn view(&self) -> Seq<K::V> {
        self.items@.map_values(|item: K| item@)
    }
}

impl<K: Keyed> DedupList<K> {
    /// The list holds no model twice, every slot is filed under the digest
    /// of its value, and the index files nothing else.
    pub closed spec fn wf(&self) -> bool {
        &&& self@.no_duplicates()
        &&& forall|slot: int|
            0 <= slot < self.items@.len() ==> bucket(
                self.index@,
                K::digest_spec(#[trigger] self.items@[slot]@),
            ).contains(slot as usize)
        &&& forall|digest: u64, at: int|
            0 <= at < bucket(self.index@, digest).len() ==> {
                let slot = #[trigger] bucket(self.index@, digest)[at];
                slot < self.items@.len() && K::digest_spec(self.items@[slot as int]@) == digest
            }
    }

    /// A well-formed list holds no model twice.
    pub proof fn lemma_distinct(&self)
        requires
            self.wf(),
        ensures
            self@.no_duplicates(),
    {
    }

    /// An empty list.
    pub fn new() -> (list: Self)
        ensures
            list.wf(),
            list@ == Seq::<K::V>::empty(),
    {
        let list = DedupList { items: Vec::new(), index: HashMap::new() };
        list
    }

    /// The number of values held.
    pub fn len(&self) -> (len: usize)
        ensures
            len == self@.len(),
    {
        self.items.len()
    }

    /// The value in slot `slot`.
    pub fn get(&self, slot: usize) -> (item: &K)
        requires
            slot < self@.len(),
        ensures
            item@ == self@[slot as int],
    {
        &self.items[slot]
    }

    /// The slot that holds a value with the model of `key`, if there is one.
    pub fn find(&self, key: &K) -> (found: Option<usize>)
        requires
            self.wf(),
        ensures
            match found {
                Some(slot) => slot < self@.len() && self@[slot as int] == key@,
                None => !self@.contains(key@),
            },
    {
        let digest = key.digest();
        match self.index.get(&digest) {
            None => None,
            Some(slots) => {
                let mut at: usize = 0;
                while at < slots.len()
                    invariant
                        self.wf(),
                        at <= slots.len(),
                        slots@ == bucket(self.index@, digest),
                        digest == K::digest_spec(key@),
                        forall|before: int|
                            0 <= before < at ==> self@[(#[trigger] slots@[before]) as int] != key@,
                    decreases slots.len() - at,
                {
                    let slot = slots[at];
                    if self.items[slot].same(key) {
                        return Some(slot);
                    }
                    at += 1;
                }
                assert(!self@.contains(key@)) by {
                    if self@.contains(key@) {
                        let slot = choose|slot: int| 0 <= slot < self@.len() && self@[slot] == key@;
                        assert(slot < self.items.len());
                    }
                }
                None
            },
        }
    }

    /// Adds a value whose model the list does not hold yet, in a new slot at
    /// the end.
    pub fn push(&mut self, key: K) -> (slot: usize)
        requires
            old(self).wf(),
            !old(self)@.contains(key@),
        ensures
            final(self).wf(),
            final(self)@ == old(self)@.push(key@),
            slot == old(self)@.len(),
    {
        let digest = key.digest();
        let slot = self.items.len();
        let ghost before = self.index@;
        let mut slots = match self.index.remove(&digest) {
            Some(slots) => slots,
            None => Vec::new(),
        };
        slots.push(slot);
        self.index.insert(digest, slots);
        self.items.push(key);
        proof {
            let old_items = old(self).items@;
            let new_items = self.items@;
            assert forall|other: u64| other != digest implies bucket(self.index@, other) == bucket(
                before,
                other,
            ) by {}
            assert forall|at: int| 0 <= at < new_items.len() implies bucket(
                self.index@,
                K::digest_spec(#[trigger] new_items[at]@),
            ).contains(at as usize) by {
                let filed = K::digest_spec(new_items[at]@);
                if at < old_items.len() {
                    if filed == digest {
                        let place = choose|place: int|
                            0 <= place < bucket(before, filed).len() && bucket(before, filed)[place]
                                == at as usize;
                        assert(bucket(self.index@, filed)[place] == at as usize);
                    }
                } else {
                    assert(bucket(self.index@, digest)[bucket(before, digest).len() as int]
                        == slot);
                }
            }
            assert forall|filed: u64, at: int|
                0 <= at < bucket(self.index@, filed).len() implies {
                let held = #[trigger] bucket(self.index@, filed)[at];
                held < new_items.len() && K::digest_spec(new_items[held as int]@) == filed
            } by {
                if filed != digest || at != bucket(before, digest).len() {
                    assert(bucket(before, filed)[at] < old_items.len());
                }
            }
            assert(self@.no_duplicates()) by {
                assert forall|i: int, j: int|
                    0 <= i < self@.len() && 0 <= j < self@.len() && i != j implies self@[i]
                    != self@[j] by {
                    if i < old(self)@.len() && j < old(self)@.len() {
                        assert(old(self)@[i] != old(self)@[j]);
                    } else if i < old(self)@.len() {
                        assert(old(self)@.contains(old(self)@[i]));
                    } else {
                        assert(old(self)@.contains(old(self)@[j]));
                    }
                }
            }
        }
        slot
    }

    /// Makes sure that the list holds a value with the model of `key`, and
    /// returns its slot and whether `key` was added for it.
    pub fn insert(&mut self, key: K) -> (placed: (usize, bool))
        requires
            old(self).wf(),
        ensures
            final(self).wf(),
            placed.1 == !old(self)@.contains(key@),
            final(self)@ == if placed.1 {
                old(self)@.push(key@)
            } else {
                old(self)@
            },
            placed.0 < final(self)@.len(),
            final(self)@[placed.0 as int] == key@,
    {
        match self.find(&key) {
            Some(slot) => (slot, false),
            None => (self.push(key), true),
        }
    }
}

} // verus!
