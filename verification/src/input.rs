//! What the game reads of a button event, and the two keys it listens to.

use vstd::prelude::*;
use crate::player::PADDLE_STEP;

verus! {

/// Code of the key that moves the paddle up: the letter A.
pub const KEY_A: i32 = 0x61;

/// Code of the key that moves the paddle down: the letter D.
pub const KEY_D: i32 = 0x64;

/// Whether a button went down or came up.
#[derive(Clone, Copy, Debug, PartialEq, Eq, Structural)]
pub enum ButtonState {
    Press,
    Release,
}

/// The button an event is about.
#[derive(Clone, Copy, Debug, PartialEq, Eq, Structural)]
pub enum Button {
    /// A key of the keyboard, by its key code.
    Keyboard(i32),
    /// A button of any other device.
    Other,
}

/// A change of one button's state.
#[derive(Clone, Copy, Debug, PartialEq, Eq, Structural)]
pub struct ButtonArgs {
    /// New state of the button.
    pub state: ButtonState,
    /// The button that changed state.
    pub button: Button,
}

/// The set of held keys after a button event: a pressed key joins the set, a
/// released key leaves it, and buttons of other devices change nothing.
pub open spec fn keys_after(keys: Set<i32>, args: ButtonArgs) -> Set<i32> {
    match args.button {
        Button::Keyboard(key) => match args.state {
            ButtonState::Press => keys.insert(key),
            ButtonState::Release => keys.remove(key),
        },
        Button::Other => keys,
    }
}

/// How far the paddle travels in one tick, downwards, given the held keys:
/// one step down for a held D and one step up for a held A. Held together,
/// the two cancel.
pub open spec fn paddle_delta(keys: Set<i32>) -> int {
    (if keys.contains(KEY_D) {
        PADDLE_STEP as int
    } else {
        0
    }) - (if keys.contains(KEY_A) {
        PADDLE_STEP as int
    } else {
        0
    })
}

} // verus!
