//! The mutation engine: new inputs made from the inputs of the corpus.
//!
//! A mutation starts from a copy of one input of the corpus and applies
//! between 1 and 32 passes to it. Each pass is one of five operators, chosen
//! and steered by the generator's next values, so a mutation is a function
//! of the corpus and of the generator's state.

use crate::action::{append_range, copy_actions, FuzzerAction};
use crate::rng::{xorshift, Rng};
use crate::statistics::Statistics;
use vstd::prelude::*;

verus! {

/// Where a range that starts at `start` and is `length` long ends in a
/// sequence of `len` items: it is cut off at the end of the sequence.
pub open spec fn range_end(start: int, length: int, len: int) -> int {
    if start + length < len {
        start + length
    } else {
        len
    }
}

/// `work` with the range at `start` replaced by `part`.
pub open spec fn spliced(
    work: Seq<FuzzerAction>,
    start: int,
    length: int,
    part: Seq<FuzzerAction>,
) -> Seq<FuzzerAction> {
    work.subrange(0, start) + part + work.subrange(
        range_end(start, length, work.len() as int),
        work.len() as int,
    )
}

/// `work` without the range at `start`.
pub open spec fn deleted(work: Seq<FuzzerAction>, start: int, length: int) -> Seq<FuzzerAction> {
    work.subrange(0, start) + work.subrange(
        range_end(start, length, work.len() as int),
        work.len() as int,
    )
}

/// `work` with `count` more copies of the action at `index`, put in front
/// of it.
pub open spec fn repeated(work: Seq<FuzzerAction>, index: int, count: nat) -> Seq<FuzzerAction> {
    work.subrange(0, index) + Seq::new(count, |i: int| work[index]) + work.subrange(
        index,
        work.len() as int,
    )
}

/// `work` with `part` put in at position `at`.
pub open spec fn inserted(work: Seq<FuzzerAction>, at: int, part: Seq<FuzzerAction>) -> Seq<
    FuzzerAction,
> {
    work.subrange(0, at) + part + work.subrange(at, work.len() as int)
}

fn clamp_end(start: usize, length: usize, len: usize) -> (end: usize)
    requires
        start <= len,
    ensures
        end == range_end(start as int, length as int, len as int),
        start <= end <= len,
{
    if length < len - start {
        start + length
    } else {
        len
    }
}

/// Splice: replaces the range of `work` that starts at `start` and is
/// `length` long by the range of `donor` that starts at `donor_start` and is
/// `donor_length` long. Either range is cut off at the end of its sequence.
pub fn splice(
    work: &mut Vec<FuzzerAction>,
    start: usize,
    length: usize,
    donor: &Vec<FuzzerAction>,
    donor_start: usize,
    donor_length: usize,
)
    requires
        start <= old(work).len(),
        donor_start <= donor.len(),
    ensures
        final(work)@ == spliced(
            old(work)@,
            start as int,
            length as int,
            donor@.subrange(
                donor_start as int,
                range_end(donor_start as int, donor_length as int, donor.len() as int),
            ),
        ),
{
    let end = clamp_end(start, length, work.len());
    let donor_end = clamp_end(donor_start, donor_length, donor.len());
    let mut out: Vec<FuzzerAction> = Vec::new();
    append_range(&mut out, work, 0, start);
    append_range(&mut out, donor, donor_start, donor_end);
    append_range(&mut out, work, end, work.len());
    *work = out;
}

/// Delete: removes the range of `work` that starts at `start` and is
/// `length` long, cut off at the end of `work`. The input never grows.
pub fn delete(work: &mut Vec<FuzzerAction>, start: usize, length: usize)
    requires
        start <= old(work).len(),
    ensures
        final(work)@ == deleted(old(work)@, start as int, length as int),
        final(work).len() == old(work).len() - (range_end(
            start as int,
            length as int,
            old(work).len() as int,
        ) - start),
        final(work).len() <= old(work).len(),
{
    let end = clamp_end(start, length, work.len());
    let mut out: Vec<FuzzerAction> = Vec::new();
    append_range(&mut out, work, 0, start);
    append_range(&mut out, work, end, work.len());
    *work = out;
}

/// Repeat: puts `count` more copies of the action at `index` in front of
/// it. The input never shrinks.
pub fn repeat(work: &mut Vec<FuzzerAction>, index: usize, count: usize)
    requires
        index < old(work).len(),
    ensures
        final(work)@ == repeated(old(work)@, index as int, count as nat),
        final(work).len() == old(work).len() + count,
        final(work).len() >= old(work).len(),
{
    let action = work[index];
    let mut done: usize = 0;
    while done < count
        invariant
            done <= count,
            index < old(work).len(),
            action == old(work)@[index as int],
            work@ == repeated(old(work)@, index as int, done as nat),
        decreases count - done,
    {
        work.insert(index, action);
        done += 1;
    }
}

/// Insert-slice: puts the range of `donor` that starts at `donor_start` and
/// is `donor_length` long, cut off at the end of `donor`, into `work` at
/// position `at`. Nothing of `work` is replaced.
pub fn insert_slice(
    work: &mut Vec<FuzzerAction>,
    at: usize,
    donor: &Vec<FuzzerAction>,
    donor_start: usize,
    donor_length: usize,
)
    requires
        at <= old(work).len(),
        donor_start <= donor.len(),
    ensures
        final(work)@ == inserted(
            old(work)@,
            at as int,
            donor@.subrange(
                donor_start as int,
                range_end(donor_start as int, donor_length as int, donor.len() as int),
            ),
        ),
{
    let donor_end = clamp_end(donor_start, donor_length, donor.len());
    let mut out: Vec<FuzzerAction> = Vec::new();
    append_range(&mut out, work, 0, at);
    append_range(&mut out, donor, donor_start, donor_end);
    append_range(&mut out, work, at, work.len());
    *work = out;
}

/// Insert-known-action: puts `action` into `work` at position `at`. The
/// input grows by one action.
pub fn insert_action(work: &mut Vec<FuzzerAction>, at: usize, action: FuzzerAction)
    requires
        at <= old(work).len(),
    ensures
        final(work)@ == old(work)@.insert(at as int, action),
        final(work).len() == old(work).len() + 1,
{
    work.insert(at, action);
}

/// The index below `bound` that the generator yields next from `state`.
pub open spec fn drawn(state: u64, bound: int) -> int {
    xorshift(state) as int % bound
}

/// The length of a range that the generator yields next from `state`. It
/// takes two values: the first reduced by a bound between 1 and 64 that the
/// second fixes. So a length is at most 63.
pub open spec fn drawn_length(state: u64) -> int {
    let first = xorshift(state);
    let second = xorshift(first);
    first as int % (second as int % 64 + 1)
}

/// The state of the generator after it has yielded a length from `state`.
pub open spec fn after_length(state: u64) -> u64 {
    xorshift(xorshift(state))
}

/// What the generator picks from a donor from `state`: an input of the
/// corpus and, unless that input is empty, a start and a length in it. The
/// result is the range picked, if any, and the generator's state afterwards.
pub open spec fn drawn_donor(corpus: Seq<Seq<FuzzerAction>>, state: u64) -> (
    Option<Seq<FuzzerAction>>,
    u64,
) {
    let donor = corpus[drawn(state, corpus.len() as int)];
    let chosen = xorshift(state);
    if donor.len() == 0 {
        (None, chosen)
    } else {
        let start = drawn(chosen, donor.len() as int);
        let placed = xorshift(chosen);
        let length = drawn_length(placed);
        (
            Some(donor.subrange(start, range_end(start, length, donor.len() as int))),
            after_length(placed),
        )
    }
}

/// A splice pass from `state`. Nothing happens to an empty input; the
/// input stays as it is where the donor turns out empty.
pub open spec fn splice_pass(
    corpus: Seq<Seq<FuzzerAction>>,
    work: Seq<FuzzerAction>,
    state: u64,
) -> (Seq<FuzzerAction>, u64) {
    if work.len() == 0 {
        (work, state)
    } else {
        let start = drawn(state, work.len() as int);
        let placed = xorshift(state);
        let length = drawn_length(placed);
        let (part, next) = drawn_donor(corpus, after_length(placed));
        match part {
            Some(part) => (spliced(work, start, length, part), next),
            None => (work, next),
        }
    }
}

/// A delete pass from `state`. Nothing happens to an empty input.
pub open spec fn delete_pass(work: Seq<FuzzerAction>, state: u64) -> (Seq<FuzzerAction>, u64) {
    if work.len() == 0 {
        (work, state)
    } else {
        let start = drawn(state, work.len() as int);
        let placed = xorshift(state);
        (deleted(work, start, drawn_length(placed)), after_length(placed))
    }
}

/// A repeat pass from `state`. Nothing happens to an empty input.
pub open spec fn repeat_pass(work: Seq<FuzzerAction>, state: u64) -> (Seq<FuzzerAction>, u64) {
    if work.len() == 0 {
        (work, state)
    } else {
        let index = drawn(state, work.len() as int);
        let placed = xorshift(state);
        (repeated(work, index, drawn_length(placed) as nat), after_length(placed))
    }
}

/// An insert-slice pass from `state`. Nothing happens to an empty input;
/// the input stays as it is where the donor turns out empty.
pub open spec fn insert_slice_pass(
    corpus: Seq<Seq<FuzzerAction>>,
    work: Seq<FuzzerAction>,
    state: u64,
) -> (Seq<FuzzerAction>, u64) {
    if work.len() == 0 {
        (work, state)
    } else {
        let at = drawn(state, work.len() as int);
        let (part, next) = drawn_donor(corpus, xorshift(state));
        match part {
            Some(part) => (inserted(work, at, part), next),
            None => (work, next),
        }
    }
}

/// An insert-known-action pass from `state`, with the registry `pool` of
/// known actions. Nothing happens to an empty input, nor with an empty
/// registry.
pub open spec fn known_action_pass(
    pool: Seq<FuzzerAction>,
    work: Seq<FuzzerAction>,
    state: u64,
) -> (Seq<FuzzerAction>, u64) {
    if pool.len() == 0 || work.len() == 0 {
        (work, state)
    } else {
        let action = pool[drawn(state, pool.len() as int)];
        let chosen = xorshift(state);
        (work.insert(drawn(chosen, work.len() as int), action), xorshift(chosen))
    }
}

/// One pass from `state`: the generator's next value, reduced by five,
/// selects the operator.
pub open spec fn mutation_pass(
    corpus: Seq<Seq<FuzzerAction>>,
    pool: Seq<FuzzerAction>,
    work: Seq<FuzzerAction>,
    state: u64,
) -> (Seq<FuzzerAction>, u64) {
    let selected = xorshift(state);
    let operator = selected as int % 5;
    if operator == 0 {
        splice_pass(corpus, work, selected)
    } else if operator == 1 {
        delete_pass(work, selected)
    } else if operator == 2 {
        repeat_pass(work, selected)
    } else if operator == 3 {
        insert_slice_pass(corpus, work, selected)
    } else {
        known_action_pass(pool, work, selected)
    }
}

/// `count` passes, one after the other.
pub open spec fn mutation_passes(
    corpus: Seq<Seq<FuzzerAction>>,
    pool: Seq<FuzzerAction>,
    work: Seq<FuzzerAction>,
    state: u64,
    count: nat,
) -> (Seq<FuzzerAction>, u64)
    decreases count,
{
    if count == 0 {
        (work, state)
    } else {
        let (next, reached) = mutation_pass(corpus, pool, work, state);
        mutation_passes(corpus, pool, next, reached, (count - 1) as nat)
    }
}

/// How many passes the generator's value `value` asks for: between 1 and 32.
pub open spec fn pass_count(value: u64) -> nat {
    ((value & 0x1f) + 1) as nat
}

/// A whole mutation from `state`: the generator picks the seed among the
/// inputs of the corpus, then the number of passes, then steers each pass.
/// The result is the new input and the generator's state afterwards.
pub open spec fn mutated(corpus: Seq<Seq<FuzzerAction>>, pool: Seq<FuzzerAction>, state: u64) -> (
    Seq<FuzzerAction>,
    u64,
) {
    let seed = corpus[drawn(state, corpus.len() as int)];
    let counted = xorshift(xorshift(state));
    mutation_passes(corpus, pool, seed, counted, pass_count(counted))
}

/// Draws the length of a range.
fn draw_length(rng: &mut Rng) -> (length: usize)
    ensures
        length == drawn_length(old(rng).state()),
        final(rng).state() == after_length(old(rng).state()),
        length < 64,
{
    let first: u64 = rng.rand();
    let second: u64 = rng.rand();
    let bound: u64 = second % 64 + 1;
    (first % bound) as usize
}

/// Draws a donor and a range in it, and returns the donor's slot in the
/// corpus with the start and the length of the range, unless the donor is
/// empty.
fn draw_donor(stats: &Statistics, rng: &mut Rng) -> (picked: Option<(usize, usize, usize)>)
    requires
        stats@.inputs.len() > 0,
    ensures
        final(rng).state() == drawn_donor(stats@.inputs, old(rng).state()).1,
        match picked {
            Some((slot, start, length)) => {
                &&& slot < stats@.inputs.len()
                &&& start < stats@.inputs[slot as int].len()
                &&& drawn_donor(stats@.inputs, old(rng).state()).0 == Some(
                    stats@.inputs[slot as int].subrange(
                        start as int,
                        range_end(
                            start as int,
                            length as int,
                            stats@.inputs[slot as int].len() as int,
                        ),
                    ),
                )
            },
            None => drawn_donor(stats@.inputs, old(rng).state()).0 is None,
        },
{
    let slot = rng.below(stats.input_count());
    let donor = stats.input(slot);
    if donor.len() == 0 {
        return None;
    }
    let start = rng.below(donor.len());
    let length = draw_length(rng);
    Some((slot, start, length))
}

/// Applies one pass to `work`: draws the operator and what it needs, and
/// applies it, or leaves `work` as it is where the operator has nothing to
/// work on.
pub fn mutate_once(stats: &Statistics, rng: &mut Rng, work: &mut Vec<FuzzerAction>)
    requires
        stats@.inputs.len() > 0,
    ensures
        (final(work)@, final(rng).state()) == mutation_pass(
            stats@.inputs,
            stats@.actions,
            old(work)@,
            old(rng).state(),
        ),
{
    let operator: u64 = rng.rand() % 5;
    if operator == 0 {
        if work.len() == 0 {
            return ;
        }
        let start = rng.below(work.len());
        let length = draw_length(rng);
        match draw_donor(stats, rng) {
            Some((slot, donor_start, donor_length)) => {
                splice(work, start, length, stats.input(slot), donor_start, donor_length);
            },
            None => {},
        }
    } else if operator == 1 {
        if work.len() == 0 {
            return ;
        }
        let start = rng.below(work.len());
        let length = draw_length(rng);
        delete(work, start, length);
    } else if operator == 2 {
        if work.len() == 0 {
            return ;
        }
        let index = rng.below(work.len());
        let count = draw_length(rng);
        repeat(work, index, count);
    } else if operator == 3 {
        if work.len() == 0 {
            return ;
        }
        let at = rng.below(work.len());
        match draw_donor(stats, rng) {
            Some((slot, donor_start, donor_length)) => {
                insert_slice(work, at, stats.input(slot), donor_start, donor_length);
            },
            None => {},
        }
    } else {
        if stats.unique_action_count() == 0 || work.len() == 0 {
            return ;
        }
        let action = stats.unique_action(rng.below(stats.unique_action_count()));
        let at = rng.below(work.len());
        insert_action(work, at, action);
    }
}

/// Makes a new input from the corpus: copies one of its inputs and applies
/// between 1 and 32 passes to the copy. No input of the corpus is changed.
///
/// The corpus must hold an input to start from.
pub fn mutate(stats: &Statistics, rng: &mut Rng) -> (input: Vec<FuzzerAction>)
    requires
        stats@.inputs.len() > 0,
    ensures
        (input@, final(rng).state()) == mutated(stats@.inputs, stats@.actions, old(rng).state()),
{
    let seed = rng.below(stats.input_count());
    let mut work = copy_actions(stats.input(seed));
    let value: u64 = rng.rand();
    assert(value & 0x1f <= 0x1f) by (bit_vector);
    let count: u64 = (value & 0x1f) + 1;
    let ghost first = work@;
    let mut done: u64 = 0;
    while done < count
        invariant
            done <= count,
            stats@.inputs.len() > 0,
            mutation_passes(
                stats@.inputs,
                stats@.actions,
                work@,
                rng.state(),
                (count - done) as nat,
            ) == mutation_passes(stats@.inputs, stats@.actions, first, value, count as nat),
        decreases count - done,
    {
        mutate_once(stats, rng, &mut work);
        done += 1;
    }
    work
}

} // verus!
