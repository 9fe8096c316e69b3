//! Events that flow between the keyboard's tasks.

use vstd::prelude::*;

pub mod button;
pub mod switch;

verus! {

/// A keyboard half.
#[derive(Copy, Clone, Debug, PartialEq, Eq, Structural)]
pub enum Half {
    Left,
    Right,
}

} // verus!
