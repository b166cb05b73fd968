//! The generator: a fresh input made by exploring a live target at random.
//!
//! The generator decides; whoever drives the target performs. A round
//! begins with the listing of the target's controls. From it `explore`
//! draws the actions of the round and records them; the driver performs
//! them and, where the round asks for it, lists the target's menu commands
//! and hands them to `explore_menu`. Exploration ends when the target can no
//! longer be listed.

use crate::action::FuzzerAction;
use crate::rng::{xorshift, Rng};
use vstd::prelude::*;

verus! {

/// How long the driver lets the target settle after a menu command, in
/// milliseconds: a menu command can open a dialog that has to be drawn
/// before anything else is done to the target.
pub const MENU_SETTLE_MS: u64 = 250;

/// The key of the decimal digit that `value` selects.
pub open spec fn digit_key(value: u64) -> usize {
    (48 + value % 10) as usize
}

/// The key of the byte that `value` selects.
pub open spec fn byte_key(value: u64) -> usize {
    (value % 256) as usize
}

/// What one round does from `state` with `controls` controls listed: the
/// actions of the round, whether the menus are to be probed after them, and
/// the generator's state afterwards.
///
/// A round clicks a control and presses a digit. One time in 32 it then
/// presses a key chosen among all byte values, one time in 256 it asks the
/// target to close, and one time in 32 it goes on to the menus.
pub open spec fn round(controls: int, state: u64) -> (Seq<FuzzerAction>, bool, u64) {
    let clicked = xorshift(state);
    let pressed = xorshift(clicked);
    let tossed = xorshift(pressed);
    let noise = xorshift(tossed);
    let typed = if tossed & 0x1f == 0 {
        noise
    } else {
        tossed
    };
    let closing = xorshift(typed);
    let probing = xorshift(closing);
    let steady = seq![
        FuzzerAction::LeftClick { idx: (clicked as int % controls) as usize },
        FuzzerAction::KeyPress { key: digit_key(pressed) },
    ];
    let noisy = if tossed & 0x1f == 0 {
        steady.push(FuzzerAction::KeyPress { key: byte_key(noise) })
    } else {
        steady
    };
    let actions = if closing & 0xff == 0 {
        noisy.push(FuzzerAction::Close)
    } else {
        noisy
    };
    (actions, probing & 0x1f == 0, probing)
}

/// What `explore` decided.
#[derive(Clone, Copy, Debug, PartialEq, Eq, Structural)]
pub enum Exploration {
    /// The target is gone: the log holds the finished input.
    Finished,
    /// A round was recorded. Its actions stand in the log from position
    /// `first` on and are to be performed in that order; after them the menus
    /// are to be probed if `probe_menus` is set.
    Round { first: usize, probe_menus: bool },
}

/// Decides one round of exploration. `controls` is the number of controls
/// that the target listed, or `None` where the listing failed. A target that
/// can no longer be listed, or lists nothing, ends the exploration; this is
/// how every exploration ends, and no error.
pub fn explore(rng: &mut Rng, controls: Option<usize>, log: &mut Vec<FuzzerAction>) -> (decided:
    Exploration)
    ensures
        controls is None || controls == Some(0usize) ==> {
            &&& decided == Exploration::Finished
            &&& final(log)@ == old(log)@
            &&& final(rng).state() == old(rng).state()
        },
        controls is Some && controls.unwrap() > 0 ==> {
            let planned = round(controls.unwrap() as int, old(rng).state());
            &&& decided == (Exploration::Round { first: old(log).len(), probe_menus: planned.1 })
            &&& final(log)@ == old(log)@ + planned.0
            &&& final(rng).state() == planned.2
        },
{
    let count = match controls {
        Some(count) => count,
        None => { return Exploration::Finished; },
    };
    if count == 0 {
        return Exploration::Finished;
    }
    let first = log.len();
    let idx = rng.below(count);
    log.push(FuzzerAction::LeftClick { idx });
    let digit: u64 = rng.rand() % 10;
    log.push(FuzzerAction::KeyPress { key: 48 + digit as usize });
    let tossed: u64 = rng.rand();
    if tossed & 0x1f == 0 {
        let noise: u64 = rng.rand();
        assert(noise & 0xff == noise % 256) by (bit_vector);
        log.push(FuzzerAction::KeyPress { key: (noise & 0xff) as usize });
    }
    let closing: u64 = rng.rand();
    if closing & 0xff == 0 {
        log.push(FuzzerAction::Close);
    }
    let probing: u64 = rng.rand();
    Exploration::Round { first, probe_menus: probing & 0x1f == 0 }
}

/// Decides which menu command to invoke, given the identifiers of the
/// commands that the target listed: one of them, each as likely as the
/// other, and none where there is none. The command chosen is recorded; the
/// driver invokes it and then lets the target settle.
pub fn explore_menu(rng: &mut Rng, menus: &Vec<u32>, log: &mut Vec<FuzzerAction>) -> (chosen:
    Option<u32>)
    ensures
        menus.len() == 0 ==> {
            &&& chosen is None
            &&& final(log)@ == old(log)@
            &&& final(rng).state() == old(rng).state()
        },
        menus.len() > 0 ==> {
            &&& chosen == Some(menus[xorshift(old(rng).state()) as int % menus.len() as int])
            &&& final(log)@ == old(log)@.push(FuzzerAction::MenuAction { menu_id: chosen.unwrap() })
            &&& final(rng).state() == xorshift(old(rng).state())
        },
{
    if menus.len() == 0 {
        return None;
    }
    let menu_id = menus[rng.below(menus.len())];
    log.push(FuzzerAction::MenuAction { menu_id });
    Some(menu_id)
}

/// What the driver does with the target for one action of an input that it
/// replays.
#[derive(Clone, Copy, Debug, PartialEq, Eq, Structural)]
pub enum Replay {
    /// Click the control with this index in the listing.
    Click { idx: usize },
    /// Ask the target to close.
    Close,
    /// Invoke this menu command, then let the target settle.
    Menu { menu_id: u32 },
    /// Press and release this key.
    Key { key: usize },
    /// Do nothing: the action names a control that the target does not have
    /// now.
    Nothing,
    /// Stop replaying: the target is gone.
    Stop,
}

/// What replaying `action` comes to, where `controls` is the number of
/// controls that the target lists now, or `None` where it cannot be listed.
/// Only a click depends on the listing.
pub open spec fn replay_of(action: FuzzerAction, controls: Option<usize>) -> Replay {
    match action {
        FuzzerAction::LeftClick { idx } => match controls {
            None => Replay::Stop,
            Some(count) => if idx < count {
                Replay::Click { idx }
            } else {
                Replay::Nothing
            },
        },
        FuzzerAction::Close => Replay::Close,
        FuzzerAction::MenuAction { menu_id } => Replay::Menu { menu_id },
        FuzzerAction::KeyPress { key } => Replay::Key { key },
    }
}

/// Whether the controls have to be listed before `action` is replayed.
pub fn needs_controls(action: FuzzerAction) -> (needed: bool)
    ensures
        needed == (action is LeftClick),
{
    match action {
        FuzzerAction::LeftClick { idx } => true,
        _ => false,
    }
}

/// Decides how to replay one action. That the target rejects one action is
/// no reason to stop: only a target that cannot be listed ends the replay.
pub fn replay(action: FuzzerAction, controls: Option<usize>) -> (step: Replay)
    ensures
        step == replay_of(action, controls),
{
    match action {
        FuzzerAction::LeftClick { idx } => match controls {
            None => Replay::Stop,
            Some(count) => if idx < count {
                Replay::Click { idx }
            } else {
                Replay::Nothing
            },
        },
        FuzzerAction::Close => Replay::Close,
        FuzzerAction::MenuAction { menu_id } => Replay::Menu { menu_id },
        FuzzerAction::KeyPress { key } => Replay::Key { key },
    }
}

} // verus!
