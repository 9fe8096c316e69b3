//! A value together with the RON text that the user edits it as.

use vstd::prelude::*;

verus! {

/// A value, the RON text that the user edits, and the last error from reading that text.
#[derive(Clone)]
pub struct RonEdit<T> {
    pub t: T,
    pub ron: String,
    pub error: String,
}

} // verus!
