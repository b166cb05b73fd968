use guifuzz::action::FuzzerAction;
use guifuzz::statistics::{CoverageKey, Statistics};
use guifuzz::worker::{merge_result, ExitClassification};

fn key(module: &str, offset: usize) -> CoverageKey {
    CoverageKey { module: module.to_string(), offset }
}

fn click(idx: usize) -> FuzzerAction {
    FuzzerAction::LeftClick { idx }
}

fn press(key: char) -> FuzzerAction {
    FuzzerAction::KeyPress { key: key as usize }
}

#[test]
fn new_database_is_empty() {
    let stats = Statistics::new();
    assert_eq!(stats.fuzz_cases(), 0);
    assert_eq!(stats.crashes(), 0);
    assert_eq!(stats.input_count(), 0);
    assert_eq!(stats.unique_action_count(), 0);
    assert_eq!(stats.coverage_count(), 0);
    assert_eq!(stats.unique_crash_count(), 0);
    let other = Statistics::default();
    assert_eq!(other.input_count(), 0);
    assert_eq!(other.coverage_count(), 0);
}

#[test]
fn empty_input_with_new_coverage_is_kept() {
    let mut stats = Statistics::new();
    let input: Vec<FuzzerAction> = Vec::new();
    let added = stats.merge_coverage(&vec![key("calc.exe", 0x1000)], &input);
    assert!(added);
    assert_eq!(stats.coverage_count(), 1);
    assert_eq!(stats.input_count(), 1);
    assert_eq!(stats.input(0), &input);
    assert_eq!(stats.unique_action_count(), 0);
    assert_eq!(stats.fuzz_cases(), 1);
    assert_eq!(stats.coverage_input(&key("calc.exe", 0x1000)), Some(&input));
    assert_eq!(stats.coverage_input(&key("calc.exe", 0x1001)), None);
    assert_eq!(stats.coverage_input(&key("calc.dll", 0x1000)), None);
}

#[test]
fn latest_crash_replaces_the_reproducer() {
    let mut stats = Statistics::new();
    let first = vec![press('/'), press('0')];
    let second = vec![FuzzerAction::Close];
    assert!(stats.merge_crash("div0".to_string(), &first));
    assert_eq!(stats.crash_input(&"div0".to_string()), Some(&first));
    assert!(stats.merge_crash("div0".to_string(), &second));
    assert_eq!(stats.crash_input(&"div0".to_string()), Some(&second));
    assert!(stats.contains_input(&first));
    assert!(stats.contains_input(&second));
    assert_eq!(stats.crashes(), 2);
    assert_eq!(stats.unique_crash_count(), 1);
    assert_eq!(stats.input_count(), 2);
    assert_eq!(stats.input(0), &first);
    assert_eq!(stats.input(1), &second);
    assert_eq!(stats.crash_input(&"div1".to_string()), None);
    assert_eq!(stats.fuzz_cases(), 0);
    assert_eq!(stats.coverage_count(), 0);
}

#[test]
fn first_input_to_reach_a_location_keeps_it() {
    let mut stats = Statistics::new();
    let first = vec![click(0)];
    let second = vec![click(1)];
    assert!(stats.merge_coverage(&vec![key("calc.exe", 0x10)], &first));
    assert!(stats.merge_coverage(&vec![key("calc.exe", 0x10), key("calc.exe", 0x20)], &second));
    assert_eq!(stats.coverage_input(&key("calc.exe", 0x10)), Some(&first));
    assert_eq!(stats.coverage_input(&key("calc.exe", 0x20)), Some(&second));
    assert_eq!(stats.coverage_count(), 2);
    assert_eq!(stats.input_count(), 2);
    assert_eq!(stats.fuzz_cases(), 2);
}

#[test]
fn input_without_new_coverage_is_not_kept() {
    let mut stats = Statistics::new();
    let first = vec![click(0)];
    let second = vec![click(1), press('7')];
    assert!(stats.merge_coverage(&vec![key("calc.exe", 0x10)], &first));
    assert!(!stats.merge_coverage(&vec![key("calc.exe", 0x10)], &second));
    assert!(!stats.merge_coverage(&Vec::new(), &second));
    assert!(!stats.contains_input(&second));
    assert_eq!(stats.input_count(), 1);
    assert_eq!(stats.unique_action_count(), 1);
    assert_eq!(stats.coverage_count(), 1);
    assert_eq!(stats.fuzz_cases(), 3);
}

#[test]
fn an_input_is_kept_once() {
    let mut stats = Statistics::new();
    let input = vec![click(3), press('1'), click(3)];
    assert!(stats.merge_coverage(&vec![key("a", 1)], &input));
    assert!(!stats.merge_coverage(&vec![key("a", 2)], &input.clone()));
    assert!(!stats.merge_crash("boom".to_string(), &input));
    assert_eq!(stats.input_count(), 1);
    assert_eq!(stats.input(0), &input);
    assert_eq!(stats.coverage_count(), 2);
    assert_eq!(stats.coverage_input(&key("a", 2)), Some(&input));
    assert_eq!(stats.crash_input(&"boom".to_string()), Some(&input));
    assert_eq!(stats.unique_action_count(), 2);
}

#[test]
fn a_location_listed_twice_counts_once() {
    let mut stats = Statistics::new();
    let input = vec![FuzzerAction::Close];
    let coverage = vec![key("m", 5), key("m", 5), key("n", 5), key("m", 5)];
    assert!(stats.merge_coverage(&coverage, &input));
    assert_eq!(stats.coverage_count(), 2);
    assert_eq!(stats.input_count(), 1);
    assert_eq!(stats.fuzz_cases(), 1);
}

#[test]
fn actions_are_registered_in_order_of_first_appearance() {
    let mut stats = Statistics::new();
    let first = vec![press('5'), click(0), press('5'), FuzzerAction::Close];
    let second = vec![FuzzerAction::MenuAction { menu_id: 9 }, click(0), press('=')];
    assert!(stats.merge_coverage(&vec![key("calc.exe", 1)], &first));
    assert_eq!(stats.unique_action_count(), 3);
    assert_eq!(stats.unique_action(0), press('5'));
    assert_eq!(stats.unique_action(1), click(0));
    assert_eq!(stats.unique_action(2), FuzzerAction::Close);
    assert!(stats.merge_crash("sig".to_string(), &second));
    assert_eq!(stats.unique_action_count(), 5);
    assert_eq!(stats.unique_action(0), press('5'));
    assert_eq!(stats.unique_action(1), click(0));
    assert_eq!(stats.unique_action(2), FuzzerAction::Close);
    assert_eq!(stats.unique_action(3), FuzzerAction::MenuAction { menu_id: 9 });
    assert_eq!(stats.unique_action(4), press('='));
}

#[test]
fn actions_of_an_input_that_is_not_kept_are_not_registered() {
    let mut stats = Statistics::new();
    assert!(stats.merge_coverage(&vec![key("calc.exe", 1)], &vec![click(0)]));
    assert!(!stats.merge_coverage(&vec![key("calc.exe", 1)], &vec![click(1)]));
    assert_eq!(stats.unique_action_count(), 1);
    assert_eq!(stats.unique_action(0), click(0));
}

#[test]
fn a_crashing_input_is_kept_without_new_coverage() {
    let mut stats = Statistics::new();
    let seen = vec![click(0)];
    let crashing = vec![press('/'), press('0'), press('=')];
    assert!(merge_result(&mut stats, &vec![key("calc.exe", 1)], ExitClassification::Normal, &seen));
    let added = merge_result(
        &mut stats,
        &vec![key("calc.exe", 1)],
        ExitClassification::Crash("div0".to_string()),
        &crashing,
    );
    assert!(added);
    assert_eq!(stats.fuzz_cases(), 2);
    assert_eq!(stats.crashes(), 1);
    assert_eq!(stats.input_count(), 2);
    assert_eq!(stats.coverage_input(&key("calc.exe", 1)), Some(&seen));
    assert_eq!(stats.crash_input(&"div0".to_string()), Some(&crashing));
    assert_eq!(stats.unique_action_count(), 4);
}

#[test]
fn a_result_is_stored_once_when_it_covers_and_crashes() {
    let mut stats = Statistics::new();
    let input = vec![press('9')];
    let added = merge_result(
        &mut stats,
        &vec![key("calc.exe", 0x40)],
        ExitClassification::Crash("av".to_string()),
        &input,
    );
    assert!(added);
    assert_eq!(stats.input_count(), 1);
    let again = merge_result(
        &mut stats,
        &vec![key("calc.exe", 0x40)],
        ExitClassification::Crash("av".to_string()),
        &input,
    );
    assert!(!again);
    assert_eq!(stats.input_count(), 1);
    assert_eq!(stats.fuzz_cases(), 2);
    assert_eq!(stats.crashes(), 2);
    assert_eq!(stats.unique_crash_count(), 1);
}

#[test]
fn many_inputs_stay_distinct_and_in_order() {
    let mut stats = Statistics::new();
    for round in 0..3 {
        for idx in 0..200usize {
            let input = vec![click(idx), press('1')];
            let added = stats.merge_coverage(&vec![key("big.exe", idx)], &input);
            assert_eq!(added, round == 0);
        }
    }
    assert_eq!(stats.input_count(), 200);
    assert_eq!(stats.coverage_count(), 200);
    assert_eq!(stats.unique_action_count(), 201);
    assert_eq!(stats.fuzz_cases(), 600);
    for idx in 0..200usize {
        assert_eq!(stats.input(idx), &vec![click(idx), press('1')]);
        assert_eq!(stats.coverage_input(&key("big.exe", idx)), Some(&vec![click(idx), press('1')]));
    }
    assert_eq!(stats.unique_action(0), click(0));
    assert_eq!(stats.unique_action(1), press('1'));
    assert_eq!(stats.unique_action(200), click(199));
}

#[test]
fn a_snapshot_holds_the_figures_of_a_report() {
    let mut stats = Statistics::new();
    assert!(stats.merge_coverage(&vec![key("a", 1), key("a", 2)], &vec![click(0), press('1')]));
    assert!(stats.merge_crash("x".to_string(), &vec![click(0)]));
    assert!(!stats.merge_crash("y".to_string(), &vec![click(0)]));
    let figures = stats.snapshot();
    assert_eq!(figures.fuzz_cases, 1);
    assert_eq!(figures.unique_actions, 2);
    assert_eq!(figures.coverage, 2);
    assert_eq!(figures.inputs, 2);
    assert_eq!(figures.crashes, 2);
    assert_eq!(figures.unique_crashes, 2);
}
