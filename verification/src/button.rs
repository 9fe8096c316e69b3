//! The buttons that a layer assigns to the switches.

use vstd::prelude::*;

use crate::keys::Key;

verus! {

/// A keyboard modifier, one bit of the modifier byte of a keyboard report.
#[derive(Clone, Copy, Debug, PartialEq, Eq, Structural)]
pub enum Modifier {
    LCtrl,
    LShift,
    LAlt,
    LMod,
    RCtrl,
    RShift,
    RAlt,
    RMod,
}

impl Modifier {
    /// The bit of this modifier in the modifier byte.
    pub open spec fn spec_bits(self) -> u8 {
        match self {
            Modifier::LCtrl => 0x01,
            Modifier::LShift => 0x02,
            Modifier::LAlt => 0x04,
            Modifier::LMod => 0x08,
            Modifier::RCtrl => 0x10,
            Modifier::RShift => 0x20,
            Modifier::RAlt => 0x40,
            Modifier::RMod => 0x80,
        }
    }

    /// The bit of this modifier in the modifier byte.
    pub fn bits(self) -> (b: u8)
        ensures
            b == self.spec_bits(),
    {
        match self {
            Modifier::LCtrl => 0x01,
            Modifier::LShift => 0x02,
            Modifier::LAlt => 0x04,
            Modifier::LMod => 0x08,
            Modifier::RCtrl => 0x10,
            Modifier::RShift => 0x20,
            Modifier::RAlt => 0x40,
            Modifier::RMod => 0x80,
        }
    }

    /// The symbol that displays this modifier.
    pub open spec fn spec_symbol(self) -> &'static str {
        match self {
            Modifier::LCtrl => "⎈",
            Modifier::LShift => "⇧",
            Modifier::LAlt => "⎇",
            Modifier::LMod => "◆",
            Modifier::RCtrl => "⎈",
            Modifier::RShift => "⇧",
            Modifier::RAlt => "⎇",
            Modifier::RMod => "◆",
        }
    }

    /// The symbol that displays this modifier (its `Display` form).
    pub fn symbol(self) -> (s: &'static str)
        ensures
            s == self.spec_symbol(),
    {
        match self {
            Modifier::LCtrl => "⎈",
            Modifier::LShift => "⇧",
            Modifier::LAlt => "⎇",
            Modifier::LMod => "◆",
            Modifier::RCtrl => "⎈",
            Modifier::RShift => "⇧",
            Modifier::RAlt => "⎇",
            Modifier::RMod => "◆",
        }
    }
}

impl Modifier {
    /// The name of this modifier (its `Debug` form).
    pub open spec fn spec_name(self) -> &'static str {
        match self {
            Modifier::LCtrl => "LCtrl",
            Modifier::LShift => "LShift",
            Modifier::LAlt => "LAlt",
            Modifier::LMod => "LMod",
            Modifier::RCtrl => "RCtrl",
            Modifier::RShift => "RShift",
            Modifier::RAlt => "RAlt",
            Modifier::RMod => "RMod",
        }
    }

    /// The name of this modifier (its `Debug` form).
    pub fn name(self) -> (s: &'static str)
        ensures
            s == self.spec_name(),
    {
        match self {
            Modifier::LCtrl => "LCtrl",
            Modifier::LShift => "LShift",
            Modifier::LAlt => "LAlt",
            Modifier::LMod => "LMod",
            Modifier::RCtrl => "RCtrl",
            Modifier::RShift => "RShift",
            Modifier::RAlt => "RAlt",
            Modifier::RMod => "RMod",
        }
    }
}

/// Each modifier owns exactly one bit, and distinct modifiers own distinct bits.
pub proof fn lemma_modifier_bits(m1: Modifier, m2: Modifier)
    ensures
        m1.spec_bits() & m1.spec_bits() == m1.spec_bits(),
        m1 != m2 ==> m1.spec_bits() & m2.spec_bits() == 0,
        m1.spec_bits() != 0,
{
    let a = m1.spec_bits();
    let b = m2.spec_bits();
    assert(a & a == a) by (bit_vector);
    match m1 {
        Modifier::LCtrl => assert(a == 1),
        Modifier::LShift => assert(a == 2),
        Modifier::LAlt => assert(a == 4),
        Modifier::LMod => assert(a == 8),
        Modifier::RCtrl => assert(a == 16),
        Modifier::RShift => assert(a == 32),
        Modifier::RAlt => assert(a == 64),
        Modifier::RMod => assert(a == 128),
    }
    if m1 != m2 {
        assert(forall|x: u8, y: u8|
            (x == 1u8 || x == 2u8 || x == 4u8 || x == 8u8 || x == 16u8 || x == 32u8 || x == 64u8
                || x == 128u8) && (y == 1u8 || y == 2u8 || y == 4u8 || y == 8u8 || y == 16u8
                || y == 32u8 || y == 64u8 || y == 128u8) && x != y ==> #[trigger] (x & y) == 0u8)
            by (bit_vector);
    }
}

impl From<Modifier> for u8 {
    fn from(modifier: Modifier) -> (r: u8) {
        modifier.bits()
    }
}

impl vstd::std_specs::convert::FromSpecImpl<Modifier> for u8 {
    open spec fn obeys_from_spec() -> bool {
        true
    }

    open spec fn from_spec(modifier: Modifier) -> u8 {
        modifier.spec_bits()
    }
}

/// What a switch does when it is pressed.
#[derive(Clone, Copy, Debug, PartialEq, Eq, Structural)]
pub enum Button {
    Mod(Modifier),
    Key(Key),
    ModTap(Key, Modifier),
    Compose2(CompShift, Key, CompShift, Key),
    Compose3(CompShift, Key, CompShift, Key, CompShift, Key),
    Layer(LayerShift, LayerDir, u16),
    /// No action. (Named `None` in serialized layouts.)
    Empty,
}

/// Whether a key should be shift modified as part of a compose chain.
#[derive(Clone, Copy, Debug, PartialEq, Eq, Structural)]
pub enum CompShift {
    /// Do not shift the key.
    Lower,
    /// Shift the key.
    Upper,
    /// Shift the key if shift is being held down.
    Variable,
}

impl Default for CompShift {
    fn default() -> (r: CompShift)
        ensures
            r == CompShift::Lower,
    {
        CompShift::Lower
    }
}

impl CompShift {
    /// The prefix that displays this shift in a compose chain.
    pub fn prefix(self) -> (s: &'static str)
        ensures
            s == self.spec_prefix(),
    {
        match self {
            CompShift::Lower => "",
            CompShift::Upper => "⇧",
            CompShift::Variable => "⇧?",
        }
    }

    /// The prefix that displays this shift in a compose chain.
    pub open spec fn spec_prefix(self) -> &'static str {
        match self {
            CompShift::Lower => "",
            CompShift::Upper => "⇧",
            CompShift::Variable => "⇧?",
        }
    }
}

#[derive(Clone, Copy, Debug, PartialEq, Eq, Structural)]
pub enum LayerDir {
    Left,
    Right,
    Up,
    Down,
}

#[derive(Clone, Copy, Debug, PartialEq, Eq, Structural)]
pub enum LayerShift {
    Move,
    Peek,
}

} // verus!

verus! {

impl Button {
    /// The text that displays this button on a layout, as a sequence of characters.
    pub open spec fn spec_display(self) -> Seq<char> {
        match self {
            Button::Mod(m) => m.spec_name()@,
            Button::Key(k) => k.spec_name()@,
            Button::ModTap(k, m) => k.spec_name()@ + "/"@ + m.spec_symbol()@,
            Button::Compose2(s1, k1, s2, k2) => "⎄ "@ + s1.spec_prefix()@ + k1.spec_name()@
                + " "@ + s2.spec_prefix()@ + k2.spec_name()@,
            Button::Compose3(s1, k1, s2, k2, s3, k3) => "⎄ "@ + s1.spec_prefix()@
                + k1.spec_name()@ + " "@ + s2.spec_prefix()@ + k2.spec_name()@ + " "@
                + s3.spec_prefix()@ + k3.spec_name()@,
            Button::Layer(..) => "Lr"@,
            Button::Empty => "Ø"@,
        }
    }

    /// The text that displays this button on a layout (its `Display` form).
    pub fn display(&self) -> (s: String)
        ensures
            s@ == self.spec_display(),
    {
        match *self {
            Button::Mod(m) => String::from_str(m.name()),
            Button::Key(k) => String::from_str(k.name()),
            Button::ModTap(k, m) => {
                let mut s = String::from_str(k.name());
                s.append("/");
                s.append(m.symbol());
                s
            },
            Button::Compose2(s1, k1, s2, k2) => {
                let mut s = String::from_str("⎄ ");
                s.append(s1.prefix());
                s.append(k1.name());
                s.append(" ");
                s.append(s2.prefix());
                s.append(k2.name());
                s
            },
            Button::Compose3(s1, k1, s2, k2, s3, k3) => {
                let mut s = String::from_str("⎄ ");
                s.append(s1.prefix());
                s.append(k1.name());
                s.append(" ");
                s.append(s2.prefix());
                s.append(k2.name());
                s.append(" ");
                s.append(s3.prefix());
                s.append(k3.name());
                s
            },
            Button::Layer(..) => String::from_str("Lr"),
            Button::Empty => String::from_str("Ø"),
        }
    }
}

} // verus!
