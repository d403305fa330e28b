//! Buttons of a headset.

use vstd::prelude::*;

verus! {

/// A button.
#[derive(Copy, Clone, Debug, PartialEq, Eq, Hash, Structural)]
pub enum Button {
    /// The volume up button.
    VolumeUp,
    /// The volume down button.
    VolumeDown,
    /// The mute button.
    Mute,
}

/// The state of an individual button.
#[derive(Copy, Clone, Debug, PartialEq, Eq, Hash, Structural)]
pub enum ButtonState {
    /// The button is up.
    NotPressed,
    /// The button is down.
    Pressed,
    /// The button is not present on this particular HMD.
    NotPresent,
}

impl ButtonState {
    /// Checks if the button is pressed.
    pub fn is_pressed(&self) -> (pressed: bool)
        ensures
            pressed == (*self == ButtonState::Pressed),
    {
        if let ButtonState::Pressed = *self {
            true
        } else {
            false
        }
    }

    /// Checks if this button is available.
    pub fn is_available(&self) -> (available: bool)
        ensures
            available == (*self != ButtonState::NotPresent),
    {
        if let ButtonState::NotPresent = *self {
            false
        } else {
            true
        }
    }
}

} // verus!
