//! Pointer input state, fed by platform input events and read once per
//! tick by the frame driver.

use vstd::prelude::*;

verus! {

/// Pointer position and the three button states, as of the last event.
#[derive(Clone, Copy, PartialEq, Eq, Structural, Debug)]
pub struct MouseState {
    pub position_x: i32,
    pub position_y: i32,
    pub left_btn_down: bool,
    pub middle_btn_down: bool,
    pub right_btn_down: bool,
}

impl Default for MouseState {
    /// All buttons up, position at the origin.
    fn default() -> (s: MouseState)
        ensures
            s == MouseState::spec_default(),
    {
        MouseState {
            position_x: 0,
            position_y: 0,
            left_btn_down: false,
            middle_btn_down: false,
            right_btn_down: false,
        }
    }
}

impl MouseState {
    /// The state a fresh `MouseState` starts in.
    pub open spec fn spec_default() -> MouseState {
        MouseState {
            position_x: 0,
            position_y: 0,
            left_btn_down: false,
            middle_btn_down: false,
            right_btn_down: false,
        }
    }

    /// Records a pointer move event.
    pub fn set_position(&mut self, x: i32, y: i32)
        ensures
            *final(self) == (MouseState { position_x: x, position_y: y, ..*old(self) }),
    {
        self.position_x = x;
        self.position_y = y;
    }

    /// Records a button event: button 0 is primary, 1 is middle, 2 is
    /// secondary; any other button code leaves the state unchanged.
    pub fn set_button(&mut self, button: i32, down: bool)
        ensures
            *final(self) == (match button {
                0i32 => MouseState { left_btn_down: down, ..*old(self) },
                1i32 => MouseState { middle_btn_down: down, ..*old(self) },
                2i32 => MouseState { right_btn_down: down, ..*old(self) },
                _ => *old(self),
            }),
    {
        match button {
            0i32 => self.left_btn_down = down,
            1i32 => self.middle_btn_down = down,
            2i32 => self.right_btn_down = down,
            _ => (),
        }
    }
}

/// All input state the frame driver reads at tick time.
#[derive(Clone, Copy, PartialEq, Eq, Structural, Debug)]
pub struct InputState {
    pub mouse_state: MouseState,
}

impl Default for InputState {
    /// A fresh mouse state.
    fn default() -> (s: InputState)
        ensures
            s == (InputState { mouse_state: MouseState::spec_default() }),
    {
        InputState { mouse_state: MouseState::default() }
    }
}

} // verus!
