use guifuzz::action::FuzzerAction;
use guifuzz::rng::Rng;
use guifuzz::statistics::{CoverageKey, Statistics};
use guifuzz::worker::{
    choose_drive, plan_iteration, step, Drive, Plan, WorkerEvent, WorkerState, ATTACH_RETRY_MS,
    START_JITTER_MS,
};

#[test]
fn plan_values() {
    let mut rng = Rng::new(1);
    assert_eq!(plan_iteration(&mut rng), Plan { delay_ms: 337, generate: false });
    assert_eq!(rng.rand(), 0x101080800402221);
    assert_eq!(plan_iteration(&mut Rng::new(5)), Plan { delay_ms: 185, generate: false });
    assert_eq!(plan_iteration(&mut Rng::new(12345)), Plan { delay_ms: 162, generate: false });
    assert_eq!(plan_iteration(&mut Rng::new(8)), Plan { delay_ms: 196, generate: true });
    assert_eq!(START_JITTER_MS, 500);
    assert_eq!(ATTACH_RETRY_MS, 200);
}

#[test]
fn an_empty_corpus_is_never_mutated() {
    let mut stats = Statistics::new();
    let forced = Plan { delay_ms: 0, generate: true };
    let free = Plan { delay_ms: 0, generate: false };
    assert_eq!(choose_drive(forced, &stats), Drive::Generate);
    assert_eq!(choose_drive(free, &stats), Drive::Generate);
    let key = CoverageKey { module: "calc.exe".to_string(), offset: 1 };
    assert!(stats.merge_coverage(&vec![key], &vec![FuzzerAction::Close]));
    assert_eq!(choose_drive(forced, &stats), Drive::Generate);
    assert_eq!(choose_drive(free, &stats), Drive::Mutate);
}

#[test]
fn an_iteration_runs_through_the_states() {
    let mut state = WorkerState::Reset;
    let events = [
        (WorkerEvent::Cleared, WorkerState::Spawning),
        (WorkerEvent::Spawned, WorkerState::AwaitingAttach),
        (WorkerEvent::AttachFailed, WorkerState::AwaitingAttach),
        (WorkerEvent::AttachFailed, WorkerState::AwaitingAttach),
        (WorkerEvent::Attached, WorkerState::Driving),
        (WorkerEvent::Driven, WorkerState::Collecting),
        (WorkerEvent::Collected, WorkerState::Merging),
        (WorkerEvent::Merged, WorkerState::Reset),
    ];
    for (event, expected) in events {
        state = step(state, event);
        assert_eq!(state, expected);
    }
}

#[test]
fn a_lost_driver_ends_the_iteration_without_a_merge() {
    assert_eq!(step(WorkerState::Collecting, WorkerEvent::DriverLost), WorkerState::Reset);
    assert_eq!(step(WorkerState::Driving, WorkerEvent::DriverLost), WorkerState::Driving);
    assert_eq!(step(WorkerState::Merging, WorkerEvent::DriverLost), WorkerState::Merging);
}

#[test]
fn an_event_out_of_turn_changes_nothing() {
    let states = [
        WorkerState::Reset,
        WorkerState::Spawning,
        WorkerState::AwaitingAttach,
        WorkerState::Driving,
        WorkerState::Collecting,
        WorkerState::Merging,
    ];
    for state in states {
        if state != WorkerState::Merging {
            assert_eq!(step(state, WorkerEvent::Merged), state);
        }
        if state != WorkerState::Reset {
            assert_eq!(step(state, WorkerEvent::Cleared), state);
        }
        if state != WorkerState::AwaitingAttach {
            assert_eq!(step(state, WorkerEvent::Attached), state);
            assert_eq!(step(state, WorkerEvent::AttachFailed), state);
        }
    }
}
