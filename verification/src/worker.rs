//! The decisions of a worker: what an iteration does before the target
//! runs, how the target is driven, and what is merged when it has exited.
//!
//! A worker loops for ever. It clears what the last target left behind,
//! spawns a fresh target under the debugger, attaches to its window, drives
//! it, collects what the debugger saw and merges it. Spawning, attaching,
//! driving and collecting are done by whoever runs the worker; this module
//! says what comes next.

use crate::action::FuzzerAction;
use crate::rng::{xorshift, Rng};
use crate::statistics::{locations_of, CoverageKey, Statistics};
use vstd::prelude::*;

verus! {

/// How long a worker waits before it tries again to attach to a target whose
/// window is not there yet, in milliseconds.
pub const ATTACH_RETRY_MS: u64 = 200;

/// The bound, in milliseconds, below which a worker's pause before it spawns
/// a target is drawn, so that the workers do not all start at once.
pub const START_JITTER_MS: u64 = 500;

/// How the target's run ended, as the debugger reports it.
#[derive(Debug, PartialEq, Eq)]
pub enum ExitClassification {
    /// The target exited by itself.
    Normal,
    /// The target crashed; the signature says where and how.
    Crash(String),
}

/// What a worker draws at the start of an iteration.
#[derive(Clone, Copy, Debug, PartialEq, Eq, Structural)]
pub struct Plan {
    /// How long to pause before the target is spawned, in milliseconds.
    pub delay_ms: u64,
    /// Whether this iteration generates a fresh input even though the corpus
    /// has inputs to mutate.
    pub generate: bool,
}

/// The plan that the generator yields from `state`: a pause below the
/// jitter bound, and a fresh input one time in eight.
pub open spec fn planned(state: u64) -> Plan {
    Plan {
        delay_ms: (xorshift(state) % 500) as u64,
        generate: xorshift(xorshift(state)) & 0x7 == 0,
    }
}

/// Draws the plan of an iteration.
pub fn plan_iteration(rng: &mut Rng) -> (plan: Plan)
    ensures
        plan == planned(old(rng).state()),
        plan.delay_ms < START_JITTER_MS,
        final(rng).state() == xorshift(xorshift(old(rng).state())),
{
    let delay_ms: u64 = rng.rand() % START_JITTER_MS;
    let tossed: u64 = rng.rand();
    Plan { delay_ms, generate: tossed & 0x7 == 0 }
}

/// How the target is driven in an iteration.
#[derive(Clone, Copy, Debug, PartialEq, Eq, Structural)]
pub enum Drive {
    /// Explore the target and record a fresh input.
    Generate,
    /// Mutate an input of the corpus and replay the result.
    Mutate,
}

/// Decides how to drive the target: by the generator where the plan asks
/// for it, and always while the corpus holds no input to mutate.
pub fn choose_drive(plan: Plan, stats: &Statistics) -> (drive: Drive)
    ensures
        drive == if plan.generate || stats@.inputs.len() == 0 {
            Drive::Generate
        } else {
            Drive::Mutate
        },
{
    if plan.generate || stats.input_count() == 0 {
        Drive::Generate
    } else {
        Drive::Mutate
    }
}

/// Merges what one iteration found: the coverage of the run, and the crash
/// if the run ended in one. A crash is no error: it is what the engine is
/// there to find.
///
/// Returns whether the input was added to those kept, which is when it has
/// to be written to durable storage.
pub fn merge_result(
    stats: &mut Statistics,
    coverage: &Vec<CoverageKey>,
    exit: ExitClassification,
    input: &Vec<FuzzerAction>,
) -> (added: bool)
    requires
        old(stats).wf(),
        old(stats)@.fuzz_cases < u64::MAX,
        exit is Crash ==> old(stats)@.crashes < u64::MAX,
    ensures
        final(stats).wf(),
        final(stats)@ == match exit {
            ExitClassification::Normal => old(stats)@.merge_coverage(
                locations_of(coverage@),
                input@,
            ),
            ExitClassification::Crash(signature) => old(stats)@.merge_coverage(
                locations_of(coverage@),
                input@,
            ).merge_crash(signature@, input@),
        },
        added == (!old(stats)@.inputs.contains(input@) && (exit is Crash || old(
            stats,
        )@.discovers(locations_of(coverage@)))),
{
    let covered = stats.merge_coverage(coverage, input);
    match exit {
        ExitClassification::Normal => covered,
        ExitClassification::Crash(signature) => {
            let crashed = stats.merge_crash(signature, input);
            covered || crashed
        },
    }
}

/// Where a worker stands in its iteration.
#[derive(Clone, Copy, Debug, PartialEq, Eq, Structural)]
pub enum WorkerState {
    /// Clearing what the last target left behind.
    Reset,
    /// Spawning a fresh target and loading its instrumentation.
    Spawning,
    /// Waiting for the target's window to attach to.
    AwaitingAttach,
    /// Driving the target, by generation or by replaying a mutation.
    Driving,
    /// Waiting for the debugger to report how the run ended and what it
    /// covered.
    Collecting,
    /// Merging the findings into the corpus.
    Merging,
}

/// What can happen to a worker.
#[derive(Clone, Copy, Debug, PartialEq, Eq, Structural)]
pub enum WorkerEvent {
    /// The state of the last target is cleared.
    Cleared,
    /// The target runs under the debugger.
    Spawned,
    /// The target's window is not there yet.
    AttachFailed,
    /// The target's window is attached.
    Attached,
    /// The target has been driven until it was gone or the input was used up.
    Driven,
    /// The debugger has reported, and the driving task has handed over its
    /// input.
    Collected,
    /// The debugger has reported, but the driving task ended abnormally: the
    /// iteration has no input.
    DriverLost,
    /// The findings are merged.
    Merged,
}

/// The state that follows `state` on `event`. An event that the state does
/// not wait for leaves it as it is. A failed attach is tried again; a lost
/// driving task ends the iteration without a merge.
pub open spec fn next_state(state: WorkerState, event: WorkerEvent) -> WorkerState {
    match (state, event) {
        (WorkerState::Reset, WorkerEvent::Cleared) => WorkerState::Spawning,
        (WorkerState::Spawning, WorkerEvent::Spawned) => WorkerState::AwaitingAttach,
        (WorkerState::AwaitingAttach, WorkerEvent::AttachFailed) => WorkerState::AwaitingAttach,
        (WorkerState::AwaitingAttach, WorkerEvent::Attached) => WorkerState::Driving,
        (WorkerState::Driving, WorkerEvent::Driven) => WorkerState::Collecting,
        (WorkerState::Collecting, WorkerEvent::Collected) => WorkerState::Merging,
        (WorkerState::Collecting, WorkerEvent::DriverLost) => WorkerState::Reset,
        (WorkerState::Merging, WorkerEvent::Merged) => WorkerState::Reset,
        _ => state,
    }
}

/// The event that moves a worker on from `state` when all goes well.
pub open spec fn regular_event(state: WorkerState) -> WorkerEvent {
    match state {
        WorkerState::Reset => WorkerEvent::Cleared,
        WorkerState::Spawning => WorkerEvent::Spawned,
        WorkerState::AwaitingAttach => WorkerEvent::Attached,
        WorkerState::Driving => WorkerEvent::Driven,
        WorkerState::Collecting => WorkerEvent::Collected,
        WorkerState::Merging => WorkerEvent::Merged,
    }
}

/// The state after `steps` regular events from `state`.
pub open spec fn advanced(state: WorkerState, steps: nat) -> WorkerState
    decreases steps,
{
    if steps == 0 {
        state
    } else {
        let before = advanced(state, (steps - 1) as nat);
        next_state(before, regular_event(before))
    }
}

/// Moves a worker from `state` on `event`.
pub fn step(state: WorkerState, event: WorkerEvent) -> (next: WorkerState)
    ensures
        next == next_state(state, event),
{
    match (state, event) {
        (WorkerState::Reset, WorkerEvent::Cleared) => WorkerState::Spawning,
        (WorkerState::Spawning, WorkerEvent::Spawned) => WorkerState::AwaitingAttach,
        (WorkerState::AwaitingAttach, WorkerEvent::AttachFailed) => WorkerState::AwaitingAttach,
        (WorkerState::AwaitingAttach, WorkerEvent::Attached) => WorkerState::Driving,
        (WorkerState::Driving, WorkerEvent::Driven) => WorkerState::Collecting,
        (WorkerState::Collecting, WorkerEvent::Collected) => WorkerState::Merging,
        (WorkerState::Collecting, WorkerEvent::DriverLost) => WorkerState::Reset,
        (WorkerState::Merging, WorkerEvent::Merged) => WorkerState::Reset,
        _ => state,
    }
}

/// A worker never comes to rest: from every state the regular event leads
/// to another state, and six regular events lead from any state back to
/// it, through `Reset`.
pub proof fn law_worker_never_rests(state: WorkerState)
    ensures
        next_state(state, regular_event(state)) != state,
        advanced(state, 6) == state,
        exists|steps: nat| steps < 6 && advanced(state, steps) == WorkerState::Reset,
{
    reveal_with_fuel(advanced, 7);
    match state {
        WorkerState::Reset => {
            assert(advanced(state, 0) == WorkerState::Reset);
        },
        WorkerState::Spawning => {
            assert(advanced(state, 5) == WorkerState::Reset);
        },
        WorkerState::AwaitingAttach => {
            assert(advanced(state, 4) == WorkerState::Reset);
        },
        WorkerState::Driving => {
            assert(advanced(state, 3) == WorkerState::Reset);
        },
        WorkerState::Collecting => {
            assert(advanced(state, 2) == WorkerState::Reset);
        },
        WorkerState::Merging => {
            assert(advanced(state, 1) == WorkerState::Reset);
        },
    }
}

} // verus!
