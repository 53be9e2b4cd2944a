//! Button state and the joypad register's group selection.
use vstd::prelude::*;

verus! {

/// Whether a button is held. A held button reads as a cleared bit.
#[derive(PartialEq, Eq, Structural, Copy, Clone, Debug)]
pub enum ButtonState {
    Down,
    Up,
}

impl ButtonState {
    /// The bit this state reads as in the joypad register.
    pub open spec fn bit_spec(self) -> u8 {
        match self {
            ButtonState::Down => 0,
            ButtonState::Up => 1,
        }
    }

    pub fn bit(self) -> (r: u8)
        ensures
            r == self.bit_spec(),
    {
        match self {
            ButtonState::Down => 0,
            ButtonState::Up => 1,
        }
    }
}

/// Which group of buttons the joypad register reports: face buttons
/// (bit 4 of the register), the direction pad (bit 5), or none.
#[derive(PartialEq, Eq, Structural, Copy, Clone, Debug)]
pub enum ButtonGroup {
    FaceButtons,
    DPad,
    Nothing,
}

/// The eight buttons and the selected group.
#[derive(PartialEq, Eq, Structural, Copy, Clone, Debug)]
pub struct JoypadState {
    pub a: ButtonState,
    pub b: ButtonState,
    pub select: ButtonState,
    pub start: ButtonState,
    pub right: ButtonState,
    pub left: ButtonState,
    pub up: ButtonState,
    pub down: ButtonState,
    pub selectedButtonGroup: ButtonGroup,
}

/// The buttons a host can press.
#[derive(PartialEq, Eq, Structural, Copy, Clone, Debug)]
pub enum Button {
    A,
    B,
    Select,
    Start,
    Right,
    Left,
    Up,
    Down,
}

impl JoypadState {
    /// All buttons released, no group selected.
    pub open spec fn new_spec() -> JoypadState {
        JoypadState {
            a: ButtonState::Up,
            b: ButtonState::Up,
            select: ButtonState::Up,
            start: ButtonState::Up,
            right: ButtonState::Up,
            left: ButtonState::Up,
            up: ButtonState::Up,
            down: ButtonState::Up,
            selectedButtonGroup: ButtonGroup::Nothing,
        }
    }

    pub fn new() -> (r: JoypadState)
        ensures
            r == Self::new_spec(),
            r.a == ButtonState::Up && r.b == ButtonState::Up,
            r.select == ButtonState::Up && r.start == ButtonState::Up,
            r.right == ButtonState::Up && r.left == ButtonState::Up,
            r.up == ButtonState::Up && r.down == ButtonState::Up,
            r.selectedButtonGroup == ButtonGroup::Nothing,
    {
        JoypadState {
            a: ButtonState::Up,
            b: ButtonState::Up,
            select: ButtonState::Up,
            start: ButtonState::Up,
            right: ButtonState::Up,
            left: ButtonState::Up,
            up: ButtonState::Up,
            down: ButtonState::Up,
            selectedButtonGroup: ButtonGroup::Nothing,
        }
    }

    pub open spec fn with_button(self, button: Button, state: ButtonState) -> JoypadState {
        match button {
            Button::A => JoypadState { a: state, ..self },
            Button::B => JoypadState { b: state, ..self },
            Button::Select => JoypadState { select: state, ..self },
            Button::Start => JoypadState { start: state, ..self },
            Button::Right => JoypadState { right: state, ..self },
            Button::Left => JoypadState { left: state, ..self },
            Button::Up => JoypadState { up: state, ..self },
            Button::Down => JoypadState { down: state, ..self },
        }
    }

    /// Records a press or a release of one button.
    pub fn set_button(&mut self, button: Button, state: ButtonState)
        ensures
            *final(self) == old(self).with_button(button, state),
    {
        match button {
            Button::A => self.a = state,
            Button::B => self.b = state,
            Button::Select => self.select = state,
            Button::Start => self.start = state,
            Button::Right => self.right = state,
            Button::Left => self.left = state,
            Button::Up => self.up = state,
            Button::Down => self.down = state,
        }
    }

    /// What the joypad register reads: the group bit, then the four
    /// buttons of that group, each 1 when released.
    pub open spec fn register_spec(self) -> u8 {
        match self.selectedButtonGroup {
            ButtonGroup::DPad => (0x20 + 8 * self.down.bit_spec() + 4 * self.up.bit_spec() + 2
                * self.left.bit_spec() + self.right.bit_spec()) as u8,
            ButtonGroup::FaceButtons => (0x10 + 8 * self.start.bit_spec() + 4
                * self.select.bit_spec() + 2 * self.b.bit_spec() + self.a.bit_spec()) as u8,
            ButtonGroup::Nothing => 0,
        }
    }

    pub fn register(&self) -> (r: u8)
        ensures
            r == self.register_spec(),
    {
        match self.selectedButtonGroup {
            ButtonGroup::DPad => 0x20 + 8 * self.down.bit() + 4 * self.up.bit() + 2
                * self.left.bit() + self.right.bit(),
            ButtonGroup::FaceButtons => 0x10 + 8 * self.start.bit() + 4 * self.select.bit() + 2
                * self.b.bit() + self.a.bit(),
            ButtonGroup::Nothing => 0,
        }
    }

    /// The group that a write of `byte` to the joypad register selects
    /// (bits 4 and 5; a cleared bit selects).
    pub open spec fn group_for_spec(byte: u8) -> ButtonGroup {
        if byte % 64 / 16 == 2 {
            ButtonGroup::DPad
        } else if byte % 64 / 16 == 1 {
            ButtonGroup::FaceButtons
        } else {
            ButtonGroup::Nothing
        }
    }

    pub fn group_for(byte: u8) -> (r: ButtonGroup)
        ensures
            r == Self::group_for_spec(byte),
    {
        let bits = byte % 64 / 16;
        if bits == 2 {
            ButtonGroup::DPad
        } else if bits == 1 {
            ButtonGroup::FaceButtons
        } else {
            ButtonGroup::Nothing
        }
    }
}

} // verus!
