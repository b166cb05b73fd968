//! Keyboard events for a target that takes its input from the system's
//! input queue: which events make up a key press, alone or with a modifier,
//! and which keys are never sent.

use crate::rng::{xorshift, Rng};
use vstd::prelude::*;

verus! {

/// The flag that marks a keyboard event as the release of the key.
pub const KEYEVENTF_KEYUP: u32 = 0x0002;

/// Keys that the engine names.
#[derive(Debug, Clone, Copy, PartialEq, Eq, Structural)]
pub enum KeyCode {
    Back,
    Tab,
    Return,
    Shift,
    Control,
    Alt,
    Left,
    Up,
    Right,
    Down,
}

impl KeyCode {
    /// The virtual-key code of the key.
    pub open spec fn code_of(self) -> u16 {
        match self {
            KeyCode::Back => 0x08,
            KeyCode::Tab => 0x09,
            KeyCode::Return => 0x0d,
            KeyCode::Shift => 0x10,
            KeyCode::Control => 0x11,
            KeyCode::Alt => 0x12,
            KeyCode::Left => 0x25,
            KeyCode::Up => 0x26,
            KeyCode::Right => 0x27,
            KeyCode::Down => 0x28,
        }
    }

    /// The virtual-key code of the key.
    pub fn code(self) -> (code: u16)
        ensures
            code == self.code_of(),
    {
        match self {
            KeyCode::Back => 0x08,
            KeyCode::Tab => 0x09,
            KeyCode::Return => 0x0d,
            KeyCode::Shift => 0x10,
            KeyCode::Control => 0x11,
            KeyCode::Alt => 0x12,
            KeyCode::Left => 0x25,
            KeyCode::Up => 0x26,
            KeyCode::Right => 0x27,
            KeyCode::Down => 0x28,
        }
    }
}

/// One keyboard event as the system's input queue takes it.
#[derive(Debug, Clone, Copy, PartialEq, Eq, Structural)]
pub struct KeyboardInput {
    /// The virtual-key code.
    pub vk: u16,
    /// The hardware scan code; not used.
    pub scan_code: u16,
    /// Flags of the event: `KEYEVENTF_KEYUP` for a release.
    pub flags: u32,
    /// The time stamp; zero lets the system fill it in.
    pub time: u32,
    /// Extra information; not used.
    pub extra_info: usize,
}

/// The event that presses `key` down.
pub open spec fn key_down(key: u16) -> KeyboardInput {
    KeyboardInput { vk: key, scan_code: 0, flags: 0, time: 0, extra_info: 0 }
}

/// The event that releases `key`.
pub open spec fn key_up(key: u16) -> KeyboardInput {
    KeyboardInput { vk: key, scan_code: 0, flags: KEYEVENTF_KEYUP, time: 0, extra_info: 0 }
}

/// The events of `key` pressed while `modifier` is held: the modifier goes
/// down first and comes up last.
pub open spec fn chord(modifier: u16, key: u16) -> Seq<KeyboardInput> {
    seq![key_down(modifier), key_down(key), key_up(key), key_up(modifier)]
}

fn down(key: u16) -> (event: KeyboardInput)
    ensures
        event == key_down(key),
{
    KeyboardInput { vk: key, scan_code: 0, flags: 0, time: 0, extra_info: 0 }
}

fn up(key: u16) -> (event: KeyboardInput)
    ensures
        event == key_up(key),
{
    KeyboardInput { vk: key, scan_code: 0, flags: KEYEVENTF_KEYUP, time: 0, extra_info: 0 }
}

fn with_modifier(modifier: u16, key: u16) -> (events: Vec<KeyboardInput>)
    ensures
        events@ == chord(modifier, key),
{
    let mut events: Vec<KeyboardInput> = Vec::new();
    events.push(down(modifier));
    events.push(down(key));
    events.push(up(key));
    events.push(up(modifier));
    events
}

/// The events of a press of `key`: down, then up.
pub fn press(key: u16) -> (events: Vec<KeyboardInput>)
    ensures
        events@ == seq![key_down(key), key_up(key)],
{
    let mut events: Vec<KeyboardInput> = Vec::new();
    events.push(down(key));
    events.push(up(key));
    events
}

/// The events of `key` pressed with Alt held. Alt with Tab or with the
/// space bar would leave the target's window, so for these nothing is sent.
pub fn alt_press(key: u16) -> (events: Vec<KeyboardInput>)
    ensures
        events@ == if key == 0x09 || key == 0x20 {
            Seq::<KeyboardInput>::empty()
        } else {
            chord(0x12, key)
        },
{
    if key == KeyCode::Tab.code() || key == 0x20 {
        return Vec::new();
    }
    with_modifier(KeyCode::Alt.code(), key)
}

/// The events of `key` pressed with Control held. Control with Escape opens
/// the system's menu, so for it nothing is sent.
pub fn ctrl_press(key: u16) -> (events: Vec<KeyboardInput>)
    ensures
        events@ == if key == 0x1b {
            Seq::<KeyboardInput>::empty()
        } else {
            chord(0x11, key)
        },
{
    if key == 0x1b {
        return Vec::new();
    }
    with_modifier(KeyCode::Control.code(), key)
}

/// Whether `key` is never sent: the keys that reach past the target (the
/// system's keys, help, printing, sleep, F1 and F4, the modifiers, Escape)
/// and every code from 0x80 on.
pub open spec fn blacklisted(key: u16) -> bool {
    ||| key >= 0x80
    ||| key == 0x5b
    ||| key == 0x5c
    ||| key == 0x5d
    ||| key == 0x5f
    ||| key == 0x70
    ||| key == 0x73
    ||| key == 0x2f
    ||| key == 0x2c
    ||| key == 0x2a
    ||| key == 0x2b
    ||| key == 0x12
    ||| key == 0x11
    ||| key == 0x1b
}

/// Whether `key` is never sent.
pub fn is_blacklisted(key: u16) -> (listed: bool)
    ensures
        listed == blacklisted(key),
{
    key >= 0x80 || key == 0x5b || key == 0x5c || key == 0x5d || key == 0x5f || key == 0x70 || key
        == 0x73 || key == 0x2f || key == 0x2c || key == 0x2a || key == 0x2b || key == 0x12 || key
        == 0x11 || key == 0x1b
}

/// What one step of blind key fuzzing sends from `state`, and the
/// generator's state afterwards. The key is the low byte of the next value.
/// A blacklisted key sends nothing and costs no further value; else the next
/// value, reduced by three, selects Alt, Control or no modifier.
pub open spec fn scooped(state: u64) -> (Seq<KeyboardInput>, u64) {
    let keyed = xorshift(state);
    let key = (keyed % 256) as u16;
    let chosen = xorshift(keyed);
    if blacklisted(key) {
        (Seq::empty(), keyed)
    } else if chosen % 3 == 0 {
        (
            if key == 0x09 || key == 0x20 {
                Seq::empty()
            } else {
                chord(0x12, key)
            },
            chosen,
        )
    } else if chosen % 3 == 1 {
        (chord(0x11, key), chosen)
    } else {
        (seq![key_down(key), key_up(key)], chosen)
    }
}

/// Decides one step of blind key fuzzing: the events to send, none where
/// the key drawn is not to be sent.
pub fn scoop(rng: &mut Rng) -> (events: Vec<KeyboardInput>)
    ensures
        (events@, final(rng).state()) == scooped(old(rng).state()),
{
    let keyed: u64 = rng.rand();
    assert(keyed & 0xff == keyed % 256) by (bit_vector);
    let key: u16 = (keyed & 0xff) as u16;
    if is_blacklisted(key) {
        return Vec::new();
    }
    let chosen: u64 = rng.rand() % 3;
    if chosen == 0 {
        alt_press(key)
    } else if chosen == 1 {
        ctrl_press(key)
    } else {
        press(key)
    }
}

/// The position that a mouse-move message carries from `state`: two
/// coordinates below 1000, the first drawn in the high half of the word, the
/// second in the low half.
pub open spec fn pointed(state: u64) -> int {
    (xorshift(state) % 1000) * 0x10000 + xorshift(xorshift(state)) % 1000
}

/// Draws a position for a mouse-move message.
pub fn point(rng: &mut Rng) -> (position: usize)
    ensures
        position == pointed(old(rng).state()),
        final(rng).state() == xorshift(xorshift(old(rng).state())),
{
    let high: u32 = (rng.rand() % 1000) as u32;
    let low: u32 = (rng.rand() % 1000) as u32;
    assert(((high << 16) | low) == high * 0x10000 + low) by (bit_vector)
        requires
            high < 1000,
            low < 1000,
    ;
    ((high << 16) | low) as usize
}

} // verus!
