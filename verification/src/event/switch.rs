//! Switch events: a physical switch was pressed or released.

use vstd::prelude::*;

use crate::button::Button;
use crate::event::Half;

verus! {

/// A switch was pressed or released
///
/// This event is triggered by tasks that monitor switches.
#[derive(Clone, Copy, Debug)]
pub struct Event {
    /// The keyboard half that triggered the event.
    pub source: Half,
    /// The index of the button that triggered the event.
    pub source_button: usize,
    pub kind: EventKind,
}

#[derive(Clone, Copy, Debug)]
pub enum EventKind {
    Press { button: Button },
    Release {
        button: Button,
        /// The duration that the button was held down for
        after: core::time::Duration,
    },
}

} // verus!
