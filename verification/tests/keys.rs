use guifuzz::keyboard::{
    alt_press, ctrl_press, is_blacklisted, point, press, scoop, KeyCode, KeyboardInput,
    KEYEVENTF_KEYUP,
};
use guifuzz::rng::Rng;
use guifuzz::winbindings::{KeyMouseState, VirtualKeyCode};

fn down(vk: u16) -> KeyboardInput {
    KeyboardInput { vk, scan_code: 0, flags: 0, time: 0, extra_info: 0 }
}

fn up(vk: u16) -> KeyboardInput {
    KeyboardInput { vk, scan_code: 0, flags: 2, time: 0, extra_info: 0 }
}

#[test]
fn mouse_state_word() {
    assert_eq!(KeyMouseState::default().to_wparam(), 0);
    let mut state = KeyMouseState::default();
    state.left_mouse = true;
    assert_eq!(state.to_wparam(), 0x0001);
    state.control = true;
    assert_eq!(state.to_wparam(), 0x0009);
    let each = [
        (KeyMouseState { left_mouse: true, ..KeyMouseState::default() }, 0x0001),
        (KeyMouseState { right_mouse: true, ..KeyMouseState::default() }, 0x0002),
        (KeyMouseState { shift: true, ..KeyMouseState::default() }, 0x0004),
        (KeyMouseState { control: true, ..KeyMouseState::default() }, 0x0008),
        (KeyMouseState { middle_mouse: true, ..KeyMouseState::default() }, 0x0010),
        (KeyMouseState { xbutton1: true, ..KeyMouseState::default() }, 0x0020),
        (KeyMouseState { xbutton2: true, ..KeyMouseState::default() }, 0x0040),
    ];
    for (state, word) in each {
        assert_eq!(state.to_wparam(), word);
    }
    let all = KeyMouseState {
        left_mouse: true,
        middle_mouse: true,
        right_mouse: true,
        shift: true,
        xbutton1: true,
        xbutton2: true,
        control: true,
    };
    assert_eq!(all.to_wparam(), 0x007f);
}

#[test]
fn key_codes() {
    assert_eq!(VirtualKeyCode::Left.code(), 0x25);
    assert_eq!(VirtualKeyCode::Up.code(), 0x26);
    assert_eq!(VirtualKeyCode::Right.code(), 0x27);
    assert_eq!(VirtualKeyCode::Down.code(), 0x28);
    assert_eq!(VirtualKeyCode::F10.code(), 0x79);
    assert_eq!(KeyCode::Back.code(), 0x08);
    assert_eq!(KeyCode::Tab.code(), 0x09);
    assert_eq!(KeyCode::Return.code(), 0x0d);
    assert_eq!(KeyCode::Shift.code(), 0x10);
    assert_eq!(KeyCode::Control.code(), 0x11);
    assert_eq!(KeyCode::Alt.code(), 0x12);
    assert_eq!(KeyCode::Left.code(), 0x25);
    assert_eq!(KeyCode::Up.code(), 0x26);
    assert_eq!(KeyCode::Right.code(), 0x27);
    assert_eq!(KeyCode::Down.code(), 0x28);
    assert_eq!(KEYEVENTF_KEYUP, 2);
}

#[test]
fn a_press_goes_down_and_up() {
    assert_eq!(press(0x41), vec![down(0x41), up(0x41)]);
    assert_eq!(press(0x1b), vec![down(0x1b), up(0x1b)]);
}

#[test]
fn a_chord_holds_the_modifier_around_the_key() {
    assert_eq!(alt_press(0x41), vec![down(0x12), down(0x41), up(0x41), up(0x12)]);
    assert_eq!(ctrl_press(0x41), vec![down(0x11), down(0x41), up(0x41), up(0x11)]);
    assert_eq!(ctrl_press(0x09), vec![down(0x11), down(0x09), up(0x09), up(0x11)]);
    assert_eq!(alt_press(0x1b), vec![down(0x12), down(0x1b), up(0x1b), up(0x12)]);
}

#[test]
fn chords_that_leave_the_target_send_nothing() {
    assert!(alt_press(0x09).is_empty());
    assert!(alt_press(0x20).is_empty());
    assert!(ctrl_press(0x1b).is_empty());
}

#[test]
fn blacklist() {
    let listed = [0x5b, 0x5c, 0x5d, 0x5f, 0x70, 0x73, 0x2f, 0x2c, 0x2a, 0x2b, 0x12, 0x11, 0x1b];
    for key in 0..=0xffffu16 {
        assert_eq!(is_blacklisted(key), key >= 0x80 || listed.contains(&key), "key {:#x}", key);
    }
}

#[test]
fn blind_key_steps() {
    let mut rng = Rng::new(1);
    assert_eq!(scoop(&mut rng), vec![down(0x11), down(0x01), up(0x01), up(0x11)]);
    assert_eq!(rng.rand(), Rng::new(0x10000000000201).rand());

    let mut rng = Rng::new(2);
    assert_eq!(scoop(&mut rng), vec![down(0x02), up(0x02)]);
    assert_eq!(rng.rand(), Rng::new(0x20000000000402).rand());

    let mut rng = Rng::new(3);
    assert_eq!(scoop(&mut rng), vec![down(0x12), down(0x03), up(0x03), up(0x12)]);
    assert_eq!(rng.rand(), Rng::new(0x30000000000603).rand());

    let mut rng = Rng::new(9);
    assert!(scoop(&mut rng).is_empty());
    assert_eq!(rng.rand(), Rng::new(0x90000000001209).rand());

    let mut rng = Rng::new(16);
    assert!(scoop(&mut rng).is_empty());
    assert_eq!(rng.rand(), Rng::new(0x1000880000020011).rand());
}

#[test]
fn pointer_position() {
    let mut rng = Rng::new(3);
    assert_eq!(point(&mut rng), 720923);
    for seed in 1..200u64 {
        let position = point(&mut Rng::new(seed));
        assert!(position >> 16 < 1000);
        assert!(position & 0xffff < 1000);
    }
}

#[test]
fn mouse_state_converts_into_its_word() {
    let state = KeyMouseState { left_mouse: true, shift: true, ..KeyMouseState::default() };
    let word: usize = state.into();
    assert_eq!(word, 0x0005);
    assert_eq!(usize::from(KeyMouseState::default()), 0);
    assert_eq!(usize::from(KeyMouseState { xbutton2: true, middle_mouse: true, ..state }), 0x0055);
}
