//! A pair of coordinates that can be shared between tasks.

pub mod word;

use vstd::prelude::*;

use atomic_polyfill::AtomicU32;
use atomic_polyfill::Ordering;

use self::word::{coord_word, word_coord};

verus! {

/// Two 16-bit coordinates, read and written together as one atomic word.
pub struct AtomicCoord {
    inner: AtomicU32,
}

impl AtomicCoord {
    /// A pair of coordinates that starts at `(0, 0)`.
    pub fn new() -> (c: AtomicCoord) {
        AtomicCoord { inner: AtomicU32::new(coord_word(0, 0)) }
    }

    /// Reads both coordinates at once.
    ///
    /// What comes back is the unpacked word that the atomic holds; which word that is
    /// depends on the other tasks, so no clause here states it.
    pub fn load(&self, ordering: Ordering) -> (c: (u16, u16)) {
        let w = self.inner.load(ordering);
        word_coord(w)
    }

    /// Writes both coordinates at once, as the word that packs them.
    pub fn store(&self, x: u16, y: u16, ordering: Ordering) {
        let w = coord_word(x, y);
        self.inner.store(w, ordering);
    }
}

} // verus!
