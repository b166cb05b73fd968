//! Plain values of the window-message interface: the state of the buttons
//! and modifier keys that accompanies a mouse message, and the codes of a
//! few virtual keys.

use vstd::prelude::*;

verus! {

/// Which mouse buttons and modifier keys are down while a mouse message is
/// sent.
#[derive(Default, Debug, Clone, Copy, PartialEq, Eq, Structural)]
pub struct KeyMouseState {
    /// The left mouse button is down.
    pub left_mouse: bool,
    /// The middle mouse button is down.
    pub middle_mouse: bool,
    /// The right mouse button is down.
    pub right_mouse: bool,
    /// A shift key is down.
    pub shift: bool,
    /// The first extra button is down.
    pub xbutton1: bool,
    /// The second extra button is down.
    pub xbutton2: bool,
    /// A control key is down.
    pub control: bool,
}

/// `flag` if `down`, else nothing.
pub open spec fn flag_if(down: bool, flag: int) -> int {
    if down {
        flag
    } else {
        0
    }
}

/// The word that carries `state` in a mouse message. Each button and key
/// has a bit of its own, so the word is the sum of the bits of those that
/// are down.
pub open spec fn wparam_of(state: KeyMouseState) -> int {
    flag_if(state.left_mouse, 0x0001) + flag_if(state.right_mouse, 0x0002) + flag_if(
        state.shift,
        0x0004,
    ) + flag_if(state.control, 0x0008) + flag_if(state.middle_mouse, 0x0010) + flag_if(
        state.xbutton1,
        0x0020,
    ) + flag_if(state.xbutton2, 0x0040)
}

impl KeyMouseState {
    /// The word that carries this state in a mouse message.
    pub fn to_wparam(self) -> (wparam: usize)
        ensures
            wparam == wparam_of(self),
    {
        let left: u32 = if self.left_mouse { 0x0001 } else { 0 };
        let middle: u32 = if self.middle_mouse { 0x0010 } else { 0 };
        let right: u32 = if self.right_mouse { 0x0002 } else { 0 };
        let shift: u32 = if self.shift { 0x0004 } else { 0 };
        let xbutton1: u32 = if self.xbutton1 { 0x0020 } else { 0 };
        let xbutton2: u32 = if self.xbutton2 { 0x0040 } else { 0 };
        let control: u32 = if self.control { 0x0008 } else { 0 };
        assert((left | middle | right | shift | xbutton1 | xbutton2 | control) == left + middle
            + right + shift + xbutton1 + xbutton2 + control) by (bit_vector)
            requires
                left == 0 || left == 0x0001,
                middle == 0 || middle == 0x0010,
                right == 0 || right == 0x0002,
                shift == 0 || shift == 0x0004,
                xbutton1 == 0 || xbutton1 == 0x0020,
                xbutton2 == 0 || xbutton2 == 0x0040,
                control == 0 || control == 0x0008,
        ;
        (left | middle | right | shift | xbutton1 | xbutton2 | control) as usize
    }
}

impl From<KeyMouseState> for usize {
    /// The word that carries `state` in a mouse message.
    fn from(state: KeyMouseState) -> (wparam: usize) {
        state.to_wparam()
    }
}

impl vstd::std_specs::convert::FromSpecImpl<KeyMouseState> for usize {
    open spec fn obeys_from_spec() -> bool {
        true
    }

    open spec fn from_spec(state: KeyMouseState) -> usize {
        wparam_of(state) as usize
    }
}

/// Virtual keys that the engine names.
#[derive(Debug, Clone, Copy, PartialEq, Eq, Structural)]
pub enum VirtualKeyCode {
    /// The left arrow.
    Left,
    /// The up arrow.
    Up,
    /// The right arrow.
    Right,
    /// The down arrow.
    Down,
    /// The function key F10.
    F10,
}

impl VirtualKeyCode {
    /// The code of the key.
    pub open spec fn code_of(self) -> usize {
        match self {
            VirtualKeyCode::Left => 0x25,
            VirtualKeyCode::Up => 0x26,
            VirtualKeyCode::Right => 0x27,
            VirtualKeyCode::Down => 0x28,
            VirtualKeyCode::F10 => 0x79,
        }
    }

    /// The code of the key, as a key press carries it.
    pub fn code(self) -> (code: usize)
        ensures
            code == self.code_of(),
    {
        match self {
            VirtualKeyCode::Left => 0x25,
            VirtualKeyCode::Up => 0x26,
            VirtualKeyCode::Right => 0x27,
            VirtualKeyCode::Down => 0x28,
            VirtualKeyCode::F10 => 0x79,
        }
    }
}

} // verus!
