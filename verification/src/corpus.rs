//! The corpus and coverage database: which code locations have been reached
//! and by which input, which inputs and actions are known, and which crashes
//! have been seen.

use crate::action::FuzzerAction;
use vstd::prelude::*;

verus! {

/// The model of a code location: the module's name and the offset in it.
pub type Location = (Seq<char>, usize);

/// The registry of known actions after the actions of one more input have
/// been seen: each action that the registry lacks joins it at the end, in
/// the order of its first occurrence.
pub open spec fn register(known: Seq<FuzzerAction>, actions: Seq<FuzzerAction>) -> Seq<
    FuzzerAction,
>
    decreases actions.len(),
{
    if actions.len() == 0 {
        known
    } else {
        let before = register(known, actions.drop_last());
        if before.contains(actions.last()) {
            before
        } else {
            before.push(actions.last())
        }
    }
}

/// Whether `action` is one of the actions of one of `inputs`.
pub open spec fn occurs(inputs: Seq<Seq<FuzzerAction>>, action: FuzzerAction) -> bool {
    exists|i: int| 0 <= i < inputs.len() && (#[trigger] inputs[i]).contains(action)
}

/// The mathematical content of the database.
pub struct Corpus {
    /// How many fuzz cases have been merged.
    pub fuzz_cases: nat,
    /// For each code location reached so far, the input that reached it
    /// first.
    pub coverage: Map<Location, Seq<FuzzerAction>>,
    /// The inputs kept, in the order in which they were added.
    pub inputs: Seq<Seq<FuzzerAction>>,
    /// Every action of every input kept, in the order of first appearance.
    pub actions: Seq<FuzzerAction>,
    /// How many crashes have been merged.
    pub crashes: nat,
    /// For each crash signature, the input of the latest crash under it.
    pub crash_db: Map<Seq<char>, Seq<FuzzerAction>>,
}

impl Corpus {
    /// The database before anything was merged.
    pub open spec fn empty() -> Corpus {
        Corpus {
            fuzz_cases: 0,
            coverage: Map::empty(),
            inputs: Seq::empty(),
            actions: Seq::empty(),
            crashes: 0,
            crash_db: Map::empty(),
        }
    }

    /// The inputs kept, as a set.
    pub open spec fn input_db(self) -> Set<Seq<FuzzerAction>> {
        self.inputs.to_set()
    }

    /// What holds of every database that the merges can produce: no input
    /// and no action is kept twice, every input that a location or a crash
    /// signature points to is kept, and the registry holds exactly the
    /// actions of the inputs kept.
    pub open spec fn valid(self) -> bool {
        &&& self.inputs.no_duplicates()
        &&& self.actions.no_duplicates()
        &&& self.coverage.dom().finite()
        &&& self.crash_db.dom().finite()
        &&& forall|location: Location| #[trigger]
            self.coverage.contains_key(location) ==> self.inputs.contains(self.coverage[location])
        &&& forall|signature: Seq<char>| #[trigger]
            self.crash_db.contains_key(signature) ==> self.inputs.contains(
                self.crash_db[signature],
            )
        &&& forall|i: int, j: int|
            0 <= i < self.inputs.len() && 0 <= j < self.inputs[i].len() ==> self.actions.contains(
                #[trigger] self.inputs[i][j],
            )
        &&& forall|k: int|
            0 <= k < self.actions.len() ==> occurs(self.inputs, #[trigger] self.actions[k])
    }

    /// Whether one of `locations` has not been reached before.
    pub open spec fn discovers(self, locations: Seq<Location>) -> bool {
        exists|i: int|
            0 <= i < locations.len() && !self.coverage.contains_key(#[trigger] locations[i])
    }

    /// The database with `input` kept: unchanged where it is kept already,
    /// else with the input at the end of the list and its actions registered.
    pub open spec fn with_input(self, input: Seq<FuzzerAction>) -> Corpus {
        if self.inputs.contains(input) {
            self
        } else {
            Corpus {
                inputs: self.inputs.push(input),
                actions: register(self.actions, input),
                ..self
            }
        }
    }

    /// The coverage map once `input` has reached `locations`: a location
    /// known before keeps its input, a new one points to `input`.
    pub open spec fn covered(self, locations: Seq<Location>, input: Seq<FuzzerAction>) -> Map<
        Location,
        Seq<FuzzerAction>,
    > {
        Map::new(
            |location: Location|
                self.coverage.contains_key(location) || locations.contains(location),
            |location: Location|
                if self.coverage.contains_key(location) {
                    self.coverage[location]
                } else {
                    input
                },
        )
    }

    /// The database once `input` has reached `locations`, the case counter
    /// left as it is. The input is kept if one of the locations is new.
    pub open spec fn cover(self, locations: Seq<Location>, input: Seq<FuzzerAction>) -> Corpus {
        let grown = if self.discovers(locations) {
            self.with_input(input)
        } else {
            self
        };
        Corpus { coverage: self.covered(locations, input), ..grown }
    }

    /// The database after the coverage of one fuzz case has been merged.
    pub open spec fn merge_coverage(
        self,
        locations: Seq<Location>,
        input: Seq<FuzzerAction>,
    ) -> Corpus {
        Corpus { fuzz_cases: self.fuzz_cases + 1, ..self.cover(locations, input) }
    }

    /// The database after a crash under `signature` has been merged: the
    /// input is kept whatever it covered, and replaces the input stored
    /// under the signature before.
    pub open spec fn merge_crash(self, signature: Seq<char>, input: Seq<FuzzerAction>) -> Corpus {
        Corpus {
            crashes: self.crashes + 1,
            crash_db: self.crash_db.insert(signature, input),
            ..self.with_input(input)
        }
    }
}

/// Registering actions keeps what was registered, in place.
pub proof fn lemma_register_prefix(known: Seq<FuzzerAction>, actions: Seq<FuzzerAction>)
    ensures
        known.is_prefix_of(register(known, actions)),
    decreases actions.len(),
{
    if actions.len() > 0 {
        lemma_register_prefix(known, actions.drop_last());
    }
}

/// After registering, the registry holds exactly what it held before and the
/// actions registered.
pub proof fn lemma_register_contains(
    known: Seq<FuzzerAction>,
    actions: Seq<FuzzerAction>,
    action: FuzzerAction,
)
    ensures
        register(known, actions).contains(action) <==> known.contains(action) || actions.contains(
            action,
        ),
    decreases actions.len(),
{
    if actions.len() > 0 {
        let rest = actions.drop_last();
        let before = register(known, rest);
        lemma_register_contains(known, rest, action);
        if actions.contains(action) {
            let at = choose|at: int| 0 <= at < actions.len() && actions[at] == action;
            if at < rest.len() {
                assert(rest[at] == action);
            }
        }
        if !before.contains(actions.last()) {
            let after = before.push(actions.last());
            if before.contains(action) {
                let at = choose|at: int| 0 <= at < before.len() && before[at] == action;
                assert(after[at] == action);
            }
            assert(after[before.len() as int] == actions.last());
        }
    }
}

/// Registering never makes an action occur twice.
pub proof fn lemma_register_distinct(known: Seq<FuzzerAction>, actions: Seq<FuzzerAction>)
    requires
        known.no_duplicates(),
    ensures
        register(known, actions).no_duplicates(),
    decreases actions.len(),
{
    if actions.len() > 0 {
        lemma_register_distinct(known, actions.drop_last());
        let before = register(known, actions.drop_last());
        if !before.contains(actions.last()) {
            let after = before.push(actions.last());
            assert forall|i: int, j: int|
                0 <= i < after.len() && 0 <= j < after.len() && i != j implies after[i]
                != after[j] by {}
        }
    }
}

/// Keeping an input preserves validity, keeps every input and action that
/// was there in its place, and leaves the input among those kept.
pub proof fn lemma_with_input(corpus: Corpus, input: Seq<FuzzerAction>)
    requires
        corpus.valid(),
    ensures
        corpus.with_input(input).valid(),
        corpus.with_input(input).inputs.contains(input),
        corpus.inputs.is_prefix_of(corpus.with_input(input).inputs),
        corpus.actions.is_prefix_of(corpus.with_input(input).actions),
{
    let after = corpus.with_input(input);
    if !corpus.inputs.contains(input) {
        let count = corpus.inputs.len() as int;
        assert(after.inputs[count] == input);
        lemma_register_prefix(corpus.actions, input);
        lemma_register_distinct(corpus.actions, input);
        assert forall|i: int, j: int|
            0 <= i < after.inputs.len() && 0 <= j < after.inputs.len() && i != j implies after.inputs[i]
            != after.inputs[j] by {}
        assert forall|location: Location| #[trigger]
            after.coverage.contains_key(location) implies after.inputs.contains(
            after.coverage[location],
        ) by {
            let kept = corpus.coverage[location];
            let at = choose|at: int| 0 <= at < count && corpus.inputs[at] == kept;
            assert(after.inputs[at] == kept);
        }
        assert forall|signature: Seq<char>| #[trigger]
            after.crash_db.contains_key(signature) implies after.inputs.contains(
            after.crash_db[signature],
        ) by {
            let kept = corpus.crash_db[signature];
            let at = choose|at: int| 0 <= at < count && corpus.inputs[at] == kept;
            assert(after.inputs[at] == kept);
        }
        assert forall|i: int, j: int|
            0 <= i < after.inputs.len() && 0 <= j < after.inputs[i].len() implies after.actions.contains(
            #[trigger] after.inputs[i][j],
        ) by {
            let action = after.inputs[i][j];
            lemma_register_contains(corpus.actions, input, action);
        }
        assert forall|k: int| 0 <= k < after.actions.len() implies occurs(
            after.inputs,
            #[trigger] after.actions[k],
        ) by {
            let action = after.actions[k];
            lemma_register_contains(corpus.actions, input, action);
            if corpus.actions.contains(action) {
                let i = choose|i: int|
                    0 <= i < count && (#[trigger] corpus.inputs[i]).contains(action);
                assert(after.inputs[i].contains(action));
            }
        }
    }
}

/// How the merge of coverage proceeds location by location: a location
/// that is known by then changes nothing; a new one is entered for the
/// input, which is kept from then on.
pub proof fn lemma_cover_step(
    corpus: Corpus,
    locations: Seq<Location>,
    location: Location,
    input: Seq<FuzzerAction>,
)
    ensures
        corpus.cover(locations, input).coverage.contains_key(location) ==> corpus.cover(
            locations.push(location),
            input,
        ) == corpus.cover(locations, input),
        !corpus.cover(locations, input).coverage.contains_key(location) ==> corpus.discovers(
            locations.push(location),
        ) && corpus.cover(locations.push(location), input) == (Corpus {
            coverage: corpus.cover(locations, input).coverage.insert(location, input),
            ..corpus.with_input(input)
        }),
{
    let more = locations.push(location);
    let now = corpus.cover(locations, input);
    let next = corpus.cover(more, input);
    assert(more[locations.len() as int] == location);
    assert forall|other: Location| more.contains(other) <==> locations.contains(other) || other
        == location by {
        if locations.contains(other) {
            let at = choose|at: int| 0 <= at < locations.len() && locations[at] == other;
            assert(more[at] == other);
        }
    }
    if corpus.discovers(locations) {
        let at = choose|at: int|
            0 <= at < locations.len() && !corpus.coverage.contains_key(#[trigger] locations[at]);
        assert(!corpus.coverage.contains_key(more[at]));
    }
    if now.coverage.contains_key(location) {
        assert(next.coverage =~= now.coverage);
    } else {
        assert(next.coverage =~= now.coverage.insert(location, input));
    }
}

} // verus!
