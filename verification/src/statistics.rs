//! The database itself: the executable structure behind the model of
//! `corpus`, with the two merges that the workers perform on it.

use crate::action::{copy_actions, FuzzerAction};
use crate::corpus::{
    lemma_cover_step, lemma_with_input, occurs, register, Corpus, Location,
};
use crate::dedup::DedupList;
use crate::digest::{digest_of, Keyed};
use std::collections::hash_map::DefaultHasher;
use std::hash::Hasher;
use vstd::bytes::{spec_u64_to_le_bytes, u64_to_le_bytes};
use vstd::prelude::*;

verus! {

/// A code location that the target reached: a module and an offset in it.
#[derive(Debug, PartialEq, Eq, Hash)]
pub struct CoverageKey {
    /// The name of the module.
    pub module: String,
    /// The offset of the location from the start of the module.
    pub offset: usize,
}

impl Clone for CoverageKey {
    fn clone(&self) -> (copy: Self)
        ensures
            copy == *self,
    {
        CoverageKey { module: self.module.clone(), offset: self.offset }
    }
}

impl View for CoverageKey {
    type V = Location;

    open spec fn view(&self) -> Location {
        (self.module@, self.offset)
    }
}

impl Keyed for CoverageKey {
    open spec fn digest_spec(model: Location) -> u64 {
        digest_of(seq![vstd::utf8::encode_utf8(model.0), spec_u64_to_le_bytes(model.1 as u64)])
    }

    fn digest(&self) -> (digest: u64) {
        let offset = u64_to_le_bytes(self.offset as u64);
        let mut hasher = DefaultHasher::new();
        hasher.write(self.module.as_str().as_bytes());
        hasher.write(offset.as_slice());
        assert(hasher@ =~= seq![
            vstd::utf8::encode_utf8(self.module@),
            spec_u64_to_le_bytes(self.offset as u64),
        ]);
        hasher.finish()
    }

    fn same(&self, other: &Self) -> (same: bool) {
        self.offset == other.offset && self.module == other.module
    }
}

/// The models of a list of code locations.
pub open spec fn locations_of(keys: Seq<CoverageKey>) -> Seq<Location> {
    keys.map_values(|key: CoverageKey| key@)
}

/// The map that sends the key in place `i` of `keys` to the input whose
/// slot stands in place `i` of `slots`.
pub open spec fn lookup<K>(keys: Seq<K>, slots: Seq<usize>, inputs: Seq<Seq<FuzzerAction>>) -> Map<
    K,
    Seq<FuzzerAction>,
> {
    Map::new(|key: K| keys.contains(key), |key: K| inputs[slots[keys.index_of(key)] as int])
}

proof fn lemma_index_of<K>(keys: Seq<K>, at: int)
    requires
        keys.no_duplicates(),
        0 <= at < keys.len(),
    ensures
        keys.index_of(keys[at]) == at,
{
}

proof fn lemma_lookup_dom<K>(keys: Seq<K>, slots: Seq<usize>, inputs: Seq<Seq<FuzzerAction>>)
    requires
        keys.no_duplicates(),
    ensures
        lookup(keys, slots, inputs).dom() == keys.to_set(),
        lookup(keys, slots, inputs).dom().finite(),
        lookup(keys, slots, inputs).dom().len() == keys.len(),
{
    keys.unique_seq_to_set();
    vstd::seq_lib::seq_to_set_is_finite(keys);
}

proof fn lemma_lookup_at<K>(
    keys: Seq<K>,
    slots: Seq<usize>,
    inputs: Seq<Seq<FuzzerAction>>,
    at: int,
)
    requires
        keys.no_duplicates(),
        0 <= at < keys.len(),
    ensures
        lookup(keys, slots, inputs).contains_key(keys[at]),
        lookup(keys, slots, inputs)[keys[at]] == inputs[slots[at] as int],
{
    lemma_index_of(keys, at);
}

proof fn lemma_lookup_push<K>(
    keys: Seq<K>,
    slots: Seq<usize>,
    inputs: Seq<Seq<FuzzerAction>>,
    key: K,
    slot: usize,
)
    requires
        keys.no_duplicates(),
        !keys.contains(key),
        keys.len() == slots.len(),
    ensures
        lookup(keys.push(key), slots.push(slot), inputs) == lookup(keys, slots, inputs).insert(
            key,
            inputs[slot as int],
        ),
        keys.push(key).no_duplicates(),
{
    let more = keys.push(key);
    assert forall|i: int, j: int| 0 <= i < more.len() && 0 <= j < more.len() && i != j implies more[i]
        != more[j] by {}
    let left = lookup(more, slots.push(slot), inputs);
    let right = lookup(keys, slots, inputs).insert(key, inputs[slot as int]);
    assert forall|other: K| left.contains_key(other) <==> right.contains_key(other) by {
        if keys.contains(other) {
            let at = choose|at: int| 0 <= at < keys.len() && keys[at] == other;
            assert(more[at] == other);
        }
        assert(more[keys.len() as int] == key);
    }
    assert forall|other: K| left.contains_key(other) implies left[other] == right[other] by {
        let at = more.index_of(other);
        lemma_index_of(more, at);
        if at < keys.len() {
            lemma_index_of(keys, at);
        }
    }
}

proof fn lemma_lookup_update<K>(
    keys: Seq<K>,
    slots: Seq<usize>,
    inputs: Seq<Seq<FuzzerAction>>,
    at: int,
    slot: usize,
)
    requires
        keys.no_duplicates(),
        keys.len() == slots.len(),
        0 <= at < keys.len(),
    ensures
        lookup(keys, slots.update(at, slot), inputs) == lookup(keys, slots, inputs).insert(
            keys[at],
            inputs[slot as int],
        ),
{
    let left = lookup(keys, slots.update(at, slot), inputs);
    let right = lookup(keys, slots, inputs).insert(keys[at], inputs[slot as int]);
    assert forall|other: K| left.contains_key(other) implies left[other] == right[other] by {
        let found = keys.index_of(other);
        lemma_index_of(keys, found);
        lemma_index_of(keys, at);
    }
}

proof fn lemma_lookup_grow<K>(
    keys: Seq<K>,
    slots: Seq<usize>,
    inputs: Seq<Seq<FuzzerAction>>,
    more: Seq<Seq<FuzzerAction>>,
)
    requires
        keys.len() == slots.len(),
        inputs.is_prefix_of(more),
        forall|at: int| 0 <= at < slots.len() ==> (#[trigger] slots[at]) < inputs.len(),
    ensures
        lookup(keys, slots, more) == lookup(keys, slots, inputs),
{
    let left = lookup(keys, slots, more);
    let right = lookup(keys, slots, inputs);
    assert forall|other: K| left.contains_key(other) implies left[other] == right[other] by {}
}

/// The corpus and coverage database. One instance is shared by all workers,
/// behind a lock that each of them holds while it merges.
///
/// Every input is stored once, in the list of inputs; a code location or a
/// crash signature refers to its input by the input's slot in that list.
pub struct Statistics {
    fuzz_cases: u64,
    crashes: u64,
    inputs: DedupList<Vec<FuzzerAction>>,
    actions: DedupList<FuzzerAction>,
    coverage_keys: DedupList<CoverageKey>,
    coverage_inputs: Vec<usize>,
    crash_names: DedupList<String>,
    crash_inputs: Vec<usize>,
}

impl View for Statistics {
    type V = Corpus;

    closed spec fn view(&self) -> Corpus {
        Corpus {
            fuzz_cases: self.fuzz_cases as nat,
            coverage: lookup(self.coverage_keys@, self.coverage_inputs@, self.inputs@),
            inputs: self.inputs@,
            actions: self.actions@,
            crashes: self.crashes as nat,
            crash_db: lookup(self.crash_names@, self.crash_inputs@, self.inputs@),
        }
    }
}

impl Statistics {
    /// The invariant of the representation. It holds of every database that
    /// this module hands out, and every operation preserves it.
    pub closed spec fn wf(&self) -> bool {
        &&& self.inputs.wf()
        &&& self.actions.wf()
        &&& self.coverage_keys.wf()
        &&& self.crash_names.wf()
        &&& self.coverage_inputs@.len() == self.coverage_keys@.len()
        &&& self.crash_inputs@.len() == self.crash_names@.len()
        &&& forall|at: int|
            0 <= at < self.coverage_inputs@.len() ==> (#[trigger] self.coverage_inputs@[at])
                < self.inputs@.len()
        &&& forall|at: int|
            0 <= at < self.crash_inputs@.len() ==> (#[trigger] self.crash_inputs@[at])
                < self.inputs@.len()
        &&& forall|i: int, j: int|
            0 <= i < self.inputs@.len() && 0 <= j < self.inputs@[i].len()
                ==> self.actions@.contains(#[trigger] self.inputs@[i][j])
        &&& forall|k: int|
            0 <= k < self.actions@.len() ==> occurs(self.inputs@, #[trigger] self.actions@[k])
    }

    /// A well-formed database has valid content.
    pub proof fn lemma_valid(&self)
        requires
            self.wf(),
        ensures
            self@.valid(),
    {
        self.inputs.lemma_distinct();
        self.actions.lemma_distinct();
        self.coverage_keys.lemma_distinct();
        self.crash_names.lemma_distinct();
        lemma_lookup_dom(self.coverage_keys@, self.coverage_inputs@, self.inputs@);
        lemma_lookup_dom(self.crash_names@, self.crash_inputs@, self.inputs@);
        assert forall|location: Location| #[trigger]
            self@.coverage.contains_key(location) implies self@.inputs.contains(
            self@.coverage[location],
        ) by {}
        assert forall|signature: Seq<char>| #[trigger]
            self@.crash_db.contains_key(signature) implies self@.inputs.contains(
            self@.crash_db[signature],
        ) by {}
    }

    /// An empty database.
    pub fn new() -> (stats: Statistics)
        ensures
            stats.wf(),
            stats@ == Corpus::empty(),
    {
        let stats = Statistics {
            fuzz_cases: 0,
            crashes: 0,
            inputs: DedupList::new(),
            actions: DedupList::new(),
            coverage_keys: DedupList::new(),
            coverage_inputs: Vec::new(),
            crash_names: DedupList::new(),
            crash_inputs: Vec::new(),
        };
        assert(stats@.coverage =~= Map::empty());
        assert(stats@.crash_db =~= Map::empty());
        stats
    }

    /// The number of fuzz cases merged so far.
    pub fn fuzz_cases(&self) -> (count: u64)
        ensures
            count == self@.fuzz_cases,
    {
        self.fuzz_cases
    }

    /// The number of crashes merged so far.
    pub fn crashes(&self) -> (count: u64)
        ensures
            count == self@.crashes,
    {
        self.crashes
    }

    /// The number of inputs kept.
    pub fn input_count(&self) -> (count: usize)
        ensures
            count == self@.inputs.len(),
    {
        self.inputs.len()
    }

    /// The input that was added as number `slot`, counting from zero.
    pub fn input(&self, slot: usize) -> (input: &Vec<FuzzerAction>)
        requires
            slot < self@.inputs.len(),
        ensures
            input@ == self@.inputs[slot as int],
    {
        self.inputs.get(slot)
    }

    /// Whether an input with these actions is kept.
    pub fn contains_input(&self, input: &Vec<FuzzerAction>) -> (kept: bool)
        requires
            self.wf(),
        ensures
            kept == self@.inputs.contains(input@),
    {
        match self.inputs.find(input) {
            Some(slot) => true,
            None => false,
        }
    }

    /// The number of distinct actions seen in the inputs kept.
    pub fn unique_action_count(&self) -> (count: usize)
        ensures
            count == self@.actions.len(),
    {
        self.actions.len()
    }

    /// The action that was registered as number `slot`, counting from zero.
    pub fn unique_action(&self, slot: usize) -> (action: FuzzerAction)
        requires
            slot < self@.actions.len(),
        ensures
            action == self@.actions[slot as int],
    {
        *self.actions.get(slot)
    }

    /// The number of code locations reached so far.
    pub fn coverage_count(&self) -> (count: usize)
        requires
            self.wf(),
        ensures
            count == self@.coverage.dom().len(),
    {
        proof {
            self.coverage_keys.lemma_distinct();
            lemma_lookup_dom(self.coverage_keys@, self.coverage_inputs@, self.inputs@);
        }
        self.coverage_keys.len()
    }

    /// The input that reached `key` first, if the location has been reached.
    pub fn coverage_input(&self, key: &CoverageKey) -> (found: Option<&Vec<FuzzerAction>>)
        requires
            self.wf(),
        ensures
            match found {
                Some(input) => self@.coverage.contains_key(key@) && input@ == self@.coverage[key@],
                None => !self@.coverage.contains_key(key@),
            },
    {
        match self.coverage_keys.find(key) {
            Some(at) => {
                proof {
                    self.coverage_keys.lemma_distinct();
                    lemma_lookup_at(
                        self.coverage_keys@,
                        self.coverage_inputs@,
                        self.inputs@,
                        at as int,
                    );
                }
                Some(self.inputs.get(self.coverage_inputs[at]))
            },
            None => None,
        }
    }

    /// The number of distinct crash signatures seen so far.
    pub fn unique_crash_count(&self) -> (count: usize)
        requires
            self.wf(),
        ensures
            count == self@.crash_db.dom().len(),
    {
        proof {
            self.crash_names.lemma_distinct();
            lemma_lookup_dom(self.crash_names@, self.crash_inputs@, self.inputs@);
        }
        self.crash_names.len()
    }

    /// The input of the latest crash under `signature`, if there was one.
    pub fn crash_input(&self, signature: &String) -> (found: Option<&Vec<FuzzerAction>>)
        requires
            self.wf(),
        ensures
            match found {
                Some(input) => self@.crash_db.contains_key(signature@) && input@
                    == self@.crash_db[signature@],
                None => !self@.crash_db.contains_key(signature@),
            },
    {
        match self.crash_names.find(signature) {
            Some(at) => {
                proof {
                    self.crash_names.lemma_distinct();
                    lemma_lookup_at(self.crash_names@, self.crash_inputs@, self.inputs@, at as int);
                }
                Some(self.inputs.get(self.crash_inputs[at]))
            },
            None => None,
        }
    }
}

/// Registers the actions of `input` that `registry` lacks, in the order of
/// their first occurrence.
fn register_actions(registry: &mut DedupList<FuzzerAction>, input: &Vec<FuzzerAction>)
    requires
        old(registry).wf(),
    ensures
        final(registry).wf(),
        final(registry)@ == register(old(registry)@, input@),
{
    let mut at: usize = 0;
    while at < input.len()
        invariant
            at <= input.len(),
            registry.wf(),
            registry@ == register(old(registry)@, input@.subrange(0, at as int)),
        decreases input.len() - at,
    {
        let action = input[at];
        proof {
            let seen = input@.subrange(0, at + 1);
            assert(seen.drop_last() == input@.subrange(0, at as int));
        }
        if registry.find(&action).is_none() {
            registry.push(action);
        }
        at += 1;
    }
    assert(input@.subrange(0, at as int) == input@);
}

impl Statistics {
    /// Makes sure that `input` is kept, and returns its slot and whether it
    /// was added by this call.
    fn keep(&mut self, input: &Vec<FuzzerAction>) -> (kept: (usize, bool))
        requires
            old(self).wf(),
        ensures
            final(self).wf(),
            final(self).inputs@ == old(self)@.with_input(input@).inputs,
            final(self).actions@ == old(self)@.with_input(input@).actions,
            final(self).coverage_keys == old(self).coverage_keys,
            final(self).coverage_inputs == old(self).coverage_inputs,
            final(self).crash_names == old(self).crash_names,
            final(self).crash_inputs == old(self).crash_inputs,
            final(self).fuzz_cases == old(self).fuzz_cases,
            final(self).crashes == old(self).crashes,
            kept.0 < final(self).inputs@.len(),
            final(self).inputs@[kept.0 as int] == input@,
            kept.1 == !old(self)@.inputs.contains(input@),
    {
        proof {
            self.lemma_valid();
            lemma_with_input(self@, input@);
        }
        match self.inputs.find(input) {
            Some(slot) => (slot, false),
            None => {
                let slot = self.inputs.push(copy_actions(input));
                register_actions(&mut self.actions, input);
                (slot, true)
            },
        }
    }

    /// Merges the coverage of one fuzz case: `input` was run and reached
    /// `coverage`. Each location that was not known is entered for `input`;
    /// a location known before keeps the input it has. If one of the
    /// locations is new, the input is kept. The case counter goes up by one.
    ///
    /// Returns whether the input was added to those kept by this call, which
    /// is when it has to be written to durable storage.
    pub fn merge_coverage(&mut self, coverage: &Vec<CoverageKey>, input: &Vec<FuzzerAction>) -> (added:
        bool)
        requires
            old(self).wf(),
            old(self)@.fuzz_cases < u64::MAX,
        ensures
            final(self).wf(),
            final(self)@ == old(self)@.merge_coverage(locations_of(coverage@), input@),
            added == (old(self)@.discovers(locations_of(coverage@)) && !old(self)@.inputs.contains(
                input@,
            )),
    {
        let ghost start = self@;
        let ghost locations = locations_of(coverage@);
        proof {
            self.lemma_valid();
        }
        let mut kept: Option<usize> = None;
        let mut added = false;
        let mut at: usize = 0;
        assert(locations.subrange(0, 0) =~= Seq::<Location>::empty());
        assert(start.cover(Seq::<Location>::empty(), input@).coverage =~= start.coverage);
        while at < coverage.len()
            invariant
                at <= coverage.len(),
                locations == locations_of(coverage@),
                start == old(self)@,
                start.valid(),
                start.fuzz_cases < u64::MAX,
                self.wf(),
                self@ == start.cover(locations.subrange(0, at as int), input@),
                kept is Some <==> start.discovers(locations.subrange(0, at as int)),
                kept matches Some(slot) ==> slot < self.inputs@.len() && self.inputs@[slot as int]
                    == input@,
                added == (start.discovers(locations.subrange(0, at as int))
                    && !start.inputs.contains(input@)),
            decreases coverage.len() - at,
        {
            let key = &coverage[at];
            let ghost seen = locations.subrange(0, at as int);
            proof {
                assert(locations.subrange(0, at + 1) == seen.push(key@));
                lemma_cover_step(start, seen, key@, input@);
                self.coverage_keys.lemma_distinct();
            }
            if self.coverage_keys.find(key).is_none() {
                let ghost before = *self;
                let slot = match kept {
                    Some(slot) => slot,
                    None => {
                        let (slot, fresh) = self.keep(input);
                        added = fresh;
                        kept = Some(slot);
                        slot
                    },
                };
                proof {
                    lemma_with_input(start, input@);
                    lemma_lookup_grow(
                        self.coverage_keys@,
                        self.coverage_inputs@,
                        before.inputs@,
                        self.inputs@,
                    );
                    lemma_lookup_grow(
                        self.crash_names@,
                        self.crash_inputs@,
                        before.inputs@,
                        self.inputs@,
                    );
                    lemma_lookup_push(
                        self.coverage_keys@,
                        self.coverage_inputs@,
                        self.inputs@,
                        key@,
                        slot,
                    );
                }
                self.coverage_keys.push(key.clone());
                self.coverage_inputs.push(slot);
            }
            at += 1;
        }
        assert(locations.subrange(0, at as int) == locations);
        self.fuzz_cases += 1;
        added
    }

    /// Merges a crash under `signature` that `input` caused. The input is
    /// kept whether or not it reached anything new, and it replaces the
    /// input stored under the signature before: of the crashes that share a
    /// signature the latest stays. The crash counter goes up by one.
    ///
    /// Returns whether the input was added to those kept by this call, which
    /// is when it has to be written to durable storage.
    pub fn merge_crash(&mut self, signature: String, input: &Vec<FuzzerAction>) -> (added: bool)
        requires
            old(self).wf(),
            old(self)@.crashes < u64::MAX,
        ensures
            final(self).wf(),
            final(self)@ == old(self)@.merge_crash(signature@, input@),
            added == !old(self)@.inputs.contains(input@),
    {
        let ghost before = *self;
        proof {
            self.lemma_valid();
            lemma_with_input(self@, input@);
        }
        let (slot, added) = self.keep(input);
        proof {
            self.crash_names.lemma_distinct();
            lemma_lookup_grow(
                self.coverage_keys@,
                self.coverage_inputs@,
                before.inputs@,
                self.inputs@,
            );
            lemma_lookup_grow(self.crash_names@, self.crash_inputs@, before.inputs@, self.inputs@);
        }
        match self.crash_names.find(&signature) {
            Some(at) => {
                proof {
                    lemma_lookup_update(
                        self.crash_names@,
                        self.crash_inputs@,
                        self.inputs@,
                        at as int,
                        slot,
                    );
                }
                self.crash_inputs[at] = slot;
            },
            None => {
                proof {
                    lemma_lookup_push(
                        self.crash_names@,
                        self.crash_inputs@,
                        self.inputs@,
                        signature@,
                        slot,
                    );
                }
                self.crash_names.push(signature);
                self.crash_inputs.push(slot);
            },
        }
        self.crashes += 1;
        added
    }
}

impl Default for Statistics {
    fn default() -> (stats: Statistics)
        ensures
            stats.wf(),
            stats@ == Corpus::empty(),
    {
        Statistics::new()
    }
}

/// The figures that a report shows, taken at one moment.
#[derive(Clone, Copy, Debug, PartialEq, Eq, Structural)]
pub struct Snapshot {
    /// The number of fuzz cases merged.
    pub fuzz_cases: u64,
    /// The number of distinct actions registered.
    pub unique_actions: usize,
    /// The number of code locations reached.
    pub coverage: usize,
    /// The number of inputs kept.
    pub inputs: usize,
    /// The number of crashes merged.
    pub crashes: u64,
    /// The number of distinct crash signatures.
    pub unique_crashes: usize,
}

impl Statistics {
    /// The figures for a report. Taken under the lock, they belong to one
    /// state of the database.
    pub fn snapshot(&self) -> (figures: Snapshot)
        requires
            self.wf(),
        ensures
            figures.fuzz_cases == self@.fuzz_cases,
            figures.unique_actions == self@.actions.len(),
            figures.coverage == self@.coverage.dom().len(),
            figures.inputs == self@.inputs.len(),
            figures.crashes == self@.crashes,
            figures.unique_crashes == self@.crash_db.dom().len(),
    {
        Snapshot {
            fuzz_cases: self.fuzz_cases(),
            unique_actions: self.unique_action_count(),
            coverage: self.coverage_count(),
            inputs: self.input_count(),
            crashes: self.crashes(),
            unique_crashes: self.unique_crash_count(),
        }
    }
}

} // verus!
