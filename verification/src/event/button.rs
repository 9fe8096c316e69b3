//! Button events: a usb keyboard key or modifier was pressed or released.

use vstd::prelude::*;

use crate::button::Modifier;
use crate::keys::Key;

verus! {

/// A usb keyboard button was pressed or released.
///
/// This is a lower-level event than a switch event, as things like ModTap and Compose are
/// converted to Presses and Releases.
#[derive(Clone, Copy, Debug, PartialEq, Eq, Structural)]
pub enum Event {
    PressKey(Key),
    ReleaseKey(Key),
    PressMod(Modifier),
    ReleaseMod(Modifier),
    Wait,
}

} // verus!
