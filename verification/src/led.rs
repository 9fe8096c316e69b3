//! Blink patterns of the status LED.

use vstd::prelude::*;

verus! {

/// One blink of the LED: how long it stays lit, in milliseconds.
#[derive(Clone, Copy, Debug, PartialEq, Eq, Structural)]
pub struct Blink {
    ms: u32,
}

/// The length of a short blink, in milliseconds.
pub const SHORT_MS: u32 = 200;

/// The length of a long blink, in milliseconds.
pub const LONG_MS: u32 = 600;

/// How long the LED stays dark after each blink, in milliseconds.
pub const PAUSE_MS: u32 = 100;

impl Blink {
    /// A short blink.
    pub fn short() -> (b: Blink)
        ensures
            b.spec_ms() == SHORT_MS,
    {
        Blink { ms: SHORT_MS }
    }

    /// A long blink.
    pub fn long() -> (b: Blink)
        ensures
            b.spec_ms() == LONG_MS,
    {
        Blink { ms: LONG_MS }
    }

    /// How long the LED stays lit.
    pub closed spec fn spec_ms(self) -> u32 {
        self.ms
    }

    /// How long the LED stays lit, in milliseconds.
    pub fn ms(&self) -> (ms: u32)
        ensures
            ms == self.spec_ms(),
    {
        self.ms
    }
}

/// One step of a dance: drive the LED high (`true`) or low, then wait this many milliseconds.
pub type DanceStep = (bool, u32);

/// The steps that dance the given blinks: for each blink, light the LED for its length and
/// then leave it dark for the pause.
pub fn dance_steps(moves: &[Blink]) -> (steps: Vec<DanceStep>)
    requires
        moves@.len() * 2 <= usize::MAX,
    ensures
        steps@.len() == moves@.len() * 2,
        forall|i: int|
            0 <= i < moves@.len() ==> #[trigger] steps@[2 * i] == (true, moves@[i].spec_ms())
                && steps@[2 * i + 1] == (false, PAUSE_MS),
{
    let mut steps: Vec<DanceStep> = Vec::new();
    let mut i: usize = 0;
    while i < moves.len()
        invariant
            i <= moves@.len(),
            moves@.len() * 2 <= usize::MAX,
            steps@.len() == i * 2,
            forall|j: int|
                0 <= j < i ==> #[trigger] steps@[2 * j] == (true, moves@[j].spec_ms())
                    && steps@[2 * j + 1] == (false, PAUSE_MS),
        decreases moves@.len() - i,
    {
        steps.push((true, moves[i].ms()));
        steps.push((false, PAUSE_MS));
        i += 1;
    }
    steps
}

} // verus!
