//! What a screen asks of the device.

use vstd::prelude::*;
use crate::games::GameConsole;

verus! {

/// A request of a screen to the device.
#[derive(Copy, Clone, Debug, PartialEq, Eq, Structural)]
pub enum Event {
    /// Set the display's backlight to this brightness.
    BacklightBrightness(u16),
    /// Set the left LED to this brightness.
    LedL(u16),
    /// Set the right LED to this brightness.
    LedR(u16),
    /// Leave the menu and start the emulator of this console.
    LaunchGame(GameConsole),
}

} // verus!
