//! The five-button gamepad.

use vstd::prelude::*;

verus! {

/// One of the gamepad's buttons.
#[derive(Clone, Copy, Debug, PartialEq, Eq, Structural)]
pub enum Button {
    Top,
    Bottom,
    Left,
    Right,
    Center,
}

/// Which buttons of the gamepad are pressed (`true`) at one reading.
#[derive(Clone, Copy, Debug, PartialEq, Eq, Structural)]
pub struct GamepadState {
    pub top: bool,
    pub bottom: bool,
    pub left: bool,
    pub right: bool,
    pub center: bool,
}

impl GamepadState {
    /// Whether a button is pressed in this state.
    pub open spec fn pressed(self, button: Button) -> bool {
        match button {
            Button::Top => self.top,
            Button::Bottom => self.bottom,
            Button::Left => self.left,
            Button::Right => self.right,
            Button::Center => self.center,
        }
    }

    /// The state in which no button is pressed.
    pub fn new() -> (state: GamepadState)
        ensures
            state == (GamepadState {
                top: false,
                bottom: false,
                left: false,
                right: false,
                center: false,
            }),
            forall|b: Button| !#[trigger] state.pressed(b),
    {
        GamepadState { top: false, bottom: false, left: false, right: false, center: false }
    }

    /// The state read from the levels (high is `true`) of the five input
    /// pins. The pins are pulled up, so a button is pressed when its pin is
    /// low.
    pub fn from_pin_levels(
        top_high: bool,
        bottom_high: bool,
        left_high: bool,
        right_high: bool,
        center_high: bool,
    ) -> (state: GamepadState)
        ensures
            state.top == !top_high,
            state.bottom == !bottom_high,
            state.left == !left_high,
            state.right == !right_high,
            state.center == !center_high,
    {
        GamepadState {
            top: !top_high,
            bottom: !bottom_high,
            left: !left_high,
            right: !right_high,
            center: !center_high,
        }
    }

    /// Whether a button is pressed.
    pub fn is_pressed(&self, button: Button) -> (pressed: bool)
        ensures
            pressed == self.pressed(button),
    {
        match button {
            Button::Top => self.top,
            Button::Bottom => self.bottom,
            Button::Left => self.left,
            Button::Right => self.right,
            Button::Center => self.center,
        }
    }
}


/// Each button query reads that button's own field.
pub proof fn lemma_pressed_reads_own_field(s: GamepadState)
    ensures
        s.pressed(Button::Top) == s.top,
        s.pressed(Button::Bottom) == s.bottom,
        s.pressed(Button::Left) == s.left,
        s.pressed(Button::Right) == s.right,
        s.pressed(Button::Center) == s.center,
{
}

} // verus!
