//! Colors of the keyboard's LEDs.

use vstd::prelude::*;

verus! {

/// An Rgb value laid out as the u32 that a Ws2812 LED expects: green in the most significant
/// byte, then red, then blue, then an unused zero byte.
#[derive(Clone, Copy, PartialEq, Eq, Structural, Debug)]
pub struct Rgb(u32);

/// The u32 word that holds the color `(r, g, b)`.
pub open spec fn rgb_word(r: u8, g: u8, b: u8) -> u32 {
    (g * 0x1000000 + r * 0x10000 + b * 0x100) as u32
}

impl Rgb {
    /// The color's u32 word.
    pub closed spec fn word(self) -> u32 {
        self.0
    }

    /// The red, green and blue components of this color.
    pub closed spec fn spec_components(self) -> (u8, u8, u8) {
        (((self.0 / 0x10000) % 0x100) as u8, (self.0 / 0x1000000) as u8, ((self.0 / 0x100) % 0x100) as u8)
    }

    /// The color with components `(r, g, b)`.
    pub closed spec fn new_spec(r: u8, g: u8, b: u8) -> Rgb {
        Rgb(rgb_word(r, g, b))
    }

    pub fn new(r: u8, g: u8, b: u8) -> (c: Rgb)
        ensures
            c == Rgb::new_spec(r, g, b),
            c.word() == rgb_word(r, g, b),
            c.spec_components() == (r, g, b),
    {
        let c = Rgb(g as u32 * 0x1000000 + r as u32 * 0x10000 + b as u32 * 0x100);
        proof {
            lemma_rgb_components(r, g, b);
        }
        c
    }

    /// Get the red, green, and blue components of this Rgb.
    pub fn components(&self) -> (c: [u8; 3])
        ensures
            c@ == seq![self.spec_components().0, self.spec_components().1, self.spec_components().2],
    {
        let r = ((self.0 / 0x10000) % 0x100) as u8;
        let g = (self.0 / 0x1000000) as u8;
        let b = ((self.0 / 0x100) % 0x100) as u8;
        let c = [r, g, b];
        assert(c@ =~= seq![self.spec_components().0, self.spec_components().1, self.spec_components().2]);
        c
    }

    /// Each component divided by `d`.
    pub fn div(self, d: u8) -> (c: Rgb)
        requires
            d != 0,
        ensures
            c == Rgb::new_spec(
                (self.spec_components().0 / d) as u8,
                (self.spec_components().1 / d) as u8,
                (self.spec_components().2 / d) as u8,
            ),
            c.spec_components() == (
                (self.spec_components().0 / d) as u8,
                (self.spec_components().1 / d) as u8,
                (self.spec_components().2 / d) as u8,
            ),
    {
        let c = self.components();
        Rgb::new(c[0] / d, c[1] / d, c[2] / d)
    }

    /// The u32 words of `rgbs`, as a Ws2812 driver sends them.
    pub fn slice_as_u32s(rgbs: &[Rgb]) -> (words: Vec<u32>)
        ensures
            words@.len() == rgbs@.len(),
            forall|i: int| 0 <= i < rgbs@.len() ==> words@[i] == #[trigger] rgbs@[i].word(),
    {
        let mut words: Vec<u32> = Vec::new();
        let mut i: usize = 0;
        while i < rgbs.len()
            invariant
                i <= rgbs@.len(),
                words@.len() == i,
                forall|j: int| 0 <= j < i ==> words@[j] == #[trigger] rgbs@[j].word(),
            decreases rgbs@.len() - i,
        {
            words.push(rgbs[i].0);
            i = i + 1;
        }
        words
    }
}

/// A color built from its components gives them back, so two colors built from different
/// components differ.
pub broadcast proof fn lemma_rgb_components(r: u8, g: u8, b: u8)
    ensures
        #[trigger] Rgb::new_spec(r, g, b).spec_components() == (r, g, b),
        Rgb::new_spec(r, g, b).word() == rgb_word(r, g, b),
{
    let w = g * 0x1000000 + r * 0x10000 + b * 0x100;
    assert(((w / 0x10000) % 0x100) == r && w / 0x1000000 == g && ((w / 0x100) % 0x100) == b
        && w < 0x100000000) by (nonlinear_arith)
        requires
            w == g * 0x1000000 + r * 0x10000 + b * 0x100,
            r < 256,
            g < 256,
            b < 256,
    ;
}

} // verus!
