//! USB events and the USB serial and keyboard interfaces.

use vstd::prelude::*;

pub mod keyboard;
pub mod serial;

verus! {

/// The largest USB packet that the keyboard sends or receives.
pub const MAX_PACKET_SIZE: u8 = 64;

/// A change of the USB device's state.
#[derive(Clone, Copy, Debug, PartialEq, Eq, Structural)]
pub enum UsbEvent {
    Enabled(bool),
    Suspended(bool),
    Configured(bool),
    Addressed(u8),
    Reset,
}

} // verus!
