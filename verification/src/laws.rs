//! What holds of the database whatever is merged into it, and of the
//! mutation operators whatever the generator yields.

use crate::action::FuzzerAction;
use crate::corpus::{lemma_with_input, Corpus, Location};
use crate::mutation::{delete_pass, drawn_length, known_action_pass, pass_count, repeat_pass};
use crate::rng::xorshift;
use vstd::prelude::*;

verus! {

/// One merge: the coverage of a fuzz case, or a crash.
pub enum Merge {
    /// The input reached these locations.
    Coverage { locations: Seq<Location>, input: Seq<FuzzerAction> },
    /// The input crashed the target under this signature.
    Crash { signature: Seq<char>, input: Seq<FuzzerAction> },
}

impl Corpus {
    /// The database after one merge.
    pub open spec fn merged(self, merge: Merge) -> Corpus {
        match merge {
            Merge::Coverage { locations, input } => self.merge_coverage(locations, input),
            Merge::Crash { signature, input } => self.merge_crash(signature, input),
        }
    }

    /// The database after the merges of `merges`, first to last.
    pub open spec fn merged_all(self, merges: Seq<Merge>) -> Corpus
        decreases merges.len(),
    {
        if merges.len() == 0 {
            self
        } else {
            self.merged_all(merges.drop_last()).merged(merges.last())
        }
    }
}

/// The empty database is valid.
pub proof fn law_empty_is_valid()
    ensures
        Corpus::empty().valid(),
{
}

/// Merging coverage keeps the database valid, and keeps every input and
/// every registered action in its place.
pub proof fn law_merge_coverage_preserves(
    corpus: Corpus,
    locations: Seq<Location>,
    input: Seq<FuzzerAction>,
)
    requires
        corpus.valid(),
    ensures
        corpus.merge_coverage(locations, input).valid(),
        corpus.inputs.is_prefix_of(corpus.merge_coverage(locations, input).inputs),
        corpus.actions.is_prefix_of(corpus.merge_coverage(locations, input).actions),
{
    let after = corpus.merge_coverage(locations, input);
    lemma_with_input(corpus, input);
    assert(after.coverage.dom() =~= corpus.coverage.dom().union(locations.to_set()));
    vstd::seq_lib::seq_to_set_is_finite(locations);
    assert forall|location: Location| #[trigger]
        after.coverage.contains_key(location) implies after.inputs.contains(
        after.coverage[location],
    ) by {}
    assert forall|signature: Seq<char>| #[trigger]
        after.crash_db.contains_key(signature) implies after.inputs.contains(
        after.crash_db[signature],
    ) by {}
}

/// Merging a crash keeps the database valid, and keeps every input and
/// every registered action in its place.
pub proof fn law_merge_crash_preserves(
    corpus: Corpus,
    signature: Seq<char>,
    input: Seq<FuzzerAction>,
)
    requires
        corpus.valid(),
    ensures
        corpus.merge_crash(signature, input).valid(),
        corpus.inputs.is_prefix_of(corpus.merge_crash(signature, input).inputs),
        corpus.actions.is_prefix_of(corpus.merge_crash(signature, input).actions),
{
    lemma_with_input(corpus, input);
}

/// Deduplication: whatever is merged, in whatever order, no input is kept
/// twice, so the list of inputs is as long as the set of inputs is large;
/// and the same holds of the registry of actions.
pub proof fn law_no_input_twice(corpus: Corpus, merges: Seq<Merge>)
    requires
        corpus.valid(),
    ensures
        corpus.merged_all(merges).valid(),
        corpus.merged_all(merges).inputs.no_duplicates(),
        corpus.merged_all(merges).inputs.len() == corpus.merged_all(merges).input_db().len(),
        corpus.merged_all(merges).actions.no_duplicates(),
        corpus.merged_all(merges).actions.len() == corpus.merged_all(merges).actions.to_set().len(),
    decreases merges.len(),
{
    if merges.len() > 0 {
        law_no_input_twice(corpus, merges.drop_last());
        let before = corpus.merged_all(merges.drop_last());
        match merges.last() {
            Merge::Coverage { locations, input } => {
                law_merge_coverage_preserves(before, locations, input);
            },
            Merge::Crash { signature, input } => {
                law_merge_crash_preserves(before, signature, input);
            },
        }
    }
    corpus.merged_all(merges).inputs.unique_seq_to_set();
    corpus.merged_all(merges).actions.unique_seq_to_set();
}

/// A location that has an input keeps it through every merge.
pub proof fn law_coverage_is_never_overwritten(
    corpus: Corpus,
    location: Location,
    merges: Seq<Merge>,
)
    requires
        corpus.coverage.contains_key(location),
    ensures
        corpus.merged_all(merges).coverage.contains_key(location),
        corpus.merged_all(merges).coverage[location] == corpus.coverage[location],
    decreases merges.len(),
{
    if merges.len() > 0 {
        law_coverage_is_never_overwritten(corpus, location, merges.drop_last());
    }
}

/// First write wins: where two inputs reach a location that was not known,
/// the location belongs to the input that was merged first, whichever of the
/// two that is.
pub proof fn law_first_write_wins(
    corpus: Corpus,
    location: Location,
    first_locations: Seq<Location>,
    first: Seq<FuzzerAction>,
    second_locations: Seq<Location>,
    second: Seq<FuzzerAction>,
)
    requires
        !corpus.coverage.contains_key(location),
        first_locations.contains(location),
        second_locations.contains(location),
    ensures
        corpus.merge_coverage(first_locations, first).merge_coverage(
            second_locations,
            second,
        ).coverage.contains_key(location),
        corpus.merge_coverage(first_locations, first).merge_coverage(
            second_locations,
            second,
        ).coverage[location] == first,
        corpus.merge_coverage(second_locations, second).merge_coverage(
            first_locations,
            first,
        ).coverage[location] == second,
{
}

/// Last write wins for crashes: of two crashes under one signature the
/// input of the second is stored under it, and both inputs are kept.
pub proof fn law_last_crash_wins(
    corpus: Corpus,
    signature: Seq<char>,
    first: Seq<FuzzerAction>,
    second: Seq<FuzzerAction>,
)
    requires
        corpus.valid(),
    ensures
        corpus.merge_crash(signature, first).merge_crash(signature, second).crash_db[signature]
            == second,
        corpus.merge_crash(signature, first).merge_crash(signature, second).input_db().contains(
            first,
        ),
        corpus.merge_crash(signature, first).merge_crash(signature, second).input_db().contains(
            second,
        ),
{
    let once = corpus.merge_crash(signature, first);
    law_merge_crash_preserves(corpus, signature, first);
    lemma_with_input(corpus, first);
    lemma_with_input(once, second);
}

/// The registry of actions only grows at its end: whatever is merged, what
/// was registered stays registered, in the same place. The same holds of
/// the list of inputs.
pub proof fn law_registry_only_grows(corpus: Corpus, merges: Seq<Merge>)
    requires
        corpus.valid(),
    ensures
        corpus.actions.is_prefix_of(corpus.merged_all(merges).actions),
        corpus.inputs.is_prefix_of(corpus.merged_all(merges).inputs),
    decreases merges.len(),
{
    if merges.len() > 0 {
        law_registry_only_grows(corpus, merges.drop_last());
        law_no_input_twice(corpus, merges.drop_last());
        let before = corpus.merged_all(merges.drop_last());
        match merges.last() {
            Merge::Coverage { locations, input } => {
                law_merge_coverage_preserves(before, locations, input);
            },
            Merge::Crash { signature, input } => {
                law_merge_crash_preserves(before, signature, input);
            },
        }
    }
}

/// A mutation applies at least one pass and at most 32.
pub proof fn law_pass_count_bounds(value: u64)
    ensures
        1 <= pass_count(value) <= 32,
{
    assert(value & 0x1f <= 0x1f) by (bit_vector);
}

/// A delete pass never makes the input longer.
pub proof fn law_delete_never_grows(work: Seq<FuzzerAction>, state: u64)
    ensures
        delete_pass(work, state).0.len() <= work.len(),
{
    if work.len() > 0 {
        lemma_drawn_length(xorshift(state));
    }
}

/// A repeat pass never makes the input shorter.
pub proof fn law_repeat_never_shrinks(work: Seq<FuzzerAction>, state: u64)
    ensures
        repeat_pass(work, state).0.len() >= work.len(),
{
    if work.len() > 0 {
        lemma_drawn_length(xorshift(state));
    }
}

/// An insert-known-action pass makes an input that is not empty longer by
/// exactly one action, where the registry holds an action to insert.
pub proof fn law_known_action_adds_one(
    pool: Seq<FuzzerAction>,
    work: Seq<FuzzerAction>,
    state: u64,
)
    requires
        work.len() > 0,
        pool.len() > 0,
    ensures
        known_action_pass(pool, work, state).0.len() == work.len() + 1,
{
}

/// A length that the generator yields lies between 0 and 63.
pub proof fn lemma_drawn_length(state: u64)
    ensures
        0 <= drawn_length(state) < 64,
{
}

} // verus!
