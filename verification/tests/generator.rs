use guifuzz::action::FuzzerAction;
use guifuzz::generator::{explore, explore_menu, needs_controls, replay, Exploration, Replay, MENU_SETTLE_MS};
use guifuzz::rng::Rng;

fn click(idx: usize) -> FuzzerAction {
    FuzzerAction::LeftClick { idx }
}

fn key(key: usize) -> FuzzerAction {
    FuzzerAction::KeyPress { key }
}

#[test]
fn exploration_ends_when_the_target_cannot_be_listed() {
    let mut rng = Rng::new(1);
    let mut log = vec![click(4)];
    assert_eq!(explore(&mut rng, None, &mut log), Exploration::Finished);
    assert_eq!(explore(&mut rng, Some(0), &mut log), Exploration::Finished);
    assert_eq!(log, vec![click(4)]);
    assert_eq!(rng.rand(), 0x100080000002001);
}

#[test]
fn a_round_clicks_and_presses_a_digit() {
    let mut rng = Rng::new(1);
    let mut log = Vec::new();
    let decided = explore(&mut rng, Some(7), &mut log);
    assert_eq!(decided, Exploration::Round { first: 0, probe_menus: false });
    assert_eq!(log, vec![click(2), key(57)]);
    assert_eq!(rng.rand(), Rng::new(0x2100080000002023).rand());

    let mut rng = Rng::new(99);
    let decided = explore(&mut rng, Some(7), &mut log);
    assert_eq!(decided, Exploration::Round { first: 2, probe_menus: false });
    assert_eq!(log, vec![click(2), key(57), click(1), key(51)]);
    assert_eq!(rng.rand(), Rng::new(0x365283030146cc3).rand());
}

#[test]
fn a_round_may_press_any_byte() {
    let mut rng = Rng::new(32);
    let mut log = Vec::new();
    let decided = explore(&mut rng, Some(7), &mut log);
    assert_eq!(decided, Exploration::Round { first: 0, probe_menus: false });
    assert_eq!(log, vec![click(0), key(48), key(96)]);
    assert_eq!(rng.rand(), Rng::new(0x640230119888c22).rand());
}

#[test]
fn a_round_may_close_the_target() {
    let mut rng = Rng::new(351);
    let mut log = Vec::new();
    let decided = explore(&mut rng, Some(7), &mut log);
    assert_eq!(decided, Exploration::Round { first: 0, probe_menus: false });
    assert_eq!(log, vec![click(0), key(49), FuzzerAction::Close]);
    assert_eq!(rng.rand(), Rng::new(0x8e4f58a0687bc814).rand());
}

#[test]
fn a_round_may_go_on_to_the_menus() {
    let mut rng = Rng::new(62);
    let mut log = Vec::new();
    let decided = explore(&mut rng, Some(7), &mut log);
    assert_eq!(decided, Exploration::Round { first: 0, probe_menus: true });
    assert_eq!(log, vec![click(2), key(55)]);
    let menus = vec![10, 20, 30];
    let expected = menus[(Rng::new(0xee32e818580bc780).rand() % 3) as usize];
    assert_eq!(explore_menu(&mut rng, &menus, &mut log), Some(expected));
    assert_eq!(log, vec![click(2), key(55), FuzzerAction::MenuAction { menu_id: expected }]);
}

#[test]
fn a_menu_command_is_chosen_by_the_next_value() {
    let mut rng = Rng::new(1);
    let mut log = Vec::new();
    // The next value from 1 is 0x100080000002001, which leaves 1 when divided by 4.
    assert_eq!(explore_menu(&mut rng, &vec![100, 200, 300, 400], &mut log), Some(200));
    assert_eq!(log, vec![FuzzerAction::MenuAction { menu_id: 200 }]);
    assert_eq!(rng.rand(), 0x10000000000201);
}

#[test]
fn no_menu_command_where_none_is_listed() {
    let mut rng = Rng::new(1);
    let mut log = vec![click(1)];
    assert_eq!(explore_menu(&mut rng, &Vec::new(), &mut log), None);
    assert_eq!(log, vec![click(1)]);
    assert_eq!(rng.rand(), 0x100080000002001);
}

#[test]
fn digits_and_indices_stay_in_range() {
    for seed in 1..500u64 {
        let mut rng = Rng::new(seed);
        let mut log = Vec::new();
        match explore(&mut rng, Some(3), &mut log) {
            Exploration::Round { first, .. } => assert_eq!(first, 0),
            Exploration::Finished => panic!("a listed target ends no exploration"),
        }
        assert!(log.len() >= 2 && log.len() <= 4);
        assert!(matches!(log[0], FuzzerAction::LeftClick { idx } if idx < 3));
        assert!(matches!(log[1], FuzzerAction::KeyPress { key } if (48..58).contains(&key)));
        for action in &log[2..] {
            assert!(matches!(action, FuzzerAction::KeyPress { key } if *key < 256) || *action == FuzzerAction::Close);
        }
    }
}

#[test]
fn replay_of_each_action() {
    assert_eq!(replay(click(2), Some(3)), Replay::Click { idx: 2 });
    assert_eq!(replay(click(3), Some(3)), Replay::Nothing);
    assert_eq!(replay(click(0), Some(0)), Replay::Nothing);
    assert_eq!(replay(click(0), None), Replay::Stop);
    assert_eq!(replay(FuzzerAction::Close, None), Replay::Close);
    assert_eq!(replay(FuzzerAction::Close, Some(5)), Replay::Close);
    assert_eq!(replay(FuzzerAction::MenuAction { menu_id: 40001 }, None), Replay::Menu { menu_id: 40001 });
    assert_eq!(replay(key(0x35), None), Replay::Key { key: 0x35 });
    assert_eq!(replay(key(0x35), Some(1)), Replay::Key { key: 0x35 });
}

#[test]
fn only_a_click_needs_the_listing() {
    assert!(needs_controls(click(0)));
    assert!(!needs_controls(FuzzerAction::Close));
    assert!(!needs_controls(FuzzerAction::MenuAction { menu_id: 1 }));
    assert!(!needs_controls(key(1)));
    assert_eq!(MENU_SETTLE_MS, 250);
}

#[test]
fn rounds_over_many_seeds() {
    let mut total = 0usize;
    let mut content = 0u64;
    let mut menus = 0usize;
    for seed in 1..=3000u64 {
        let mut rng = Rng::new(seed);
        let mut log = Vec::new();
        if let Exploration::Round { probe_menus, .. } = explore(&mut rng, Some(11), &mut log) {
            if probe_menus {
                menus += 1;
            }
        }
        total += log.len();
        for (at, action) in log.iter().enumerate() {
            let code = match action {
                FuzzerAction::LeftClick { idx } => 1000003 + *idx as u64,
                FuzzerAction::Close => 2 * 1000003,
                FuzzerAction::MenuAction { menu_id } => 3 * 1000003 + *menu_id as u64,
                FuzzerAction::KeyPress { key } => 4 * 1000003 + *key as u64,
            };
            content = content.wrapping_add((at as u64 + 1).wrapping_mul(code));
        }
    }
    assert_eq!(total, 6105);
    assert_eq!(content, 0x6904819bc);
    assert_eq!(menus, 93);
}
