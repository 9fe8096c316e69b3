//! The USB HID keyboard report, with N-key rollover.

use vstd::prelude::*;

use crate::button::{lemma_modifier_bits, Modifier};
use crate::keys::{lemma_key_code_range, Key};

verus! {

/// The number of bytes in the keycode bitmap.
pub const KEYCODE_BYTES: usize = 27;

/// The number of keycodes that the bitmap has a bit for.
pub const KEYCODE_COUNT: u8 = 216;

/// The size of a report on the wire.
pub const REPORT_LEN: usize = 28;

/// KeyboardReport describes a report and its companion descriptor that can be
/// used to send keyboard button presses to a host and receive the status of the
/// keyboard LEDs.
///
/// Unlike usbd_hids KeyboardReport, this one supports N-key rollover.
#[derive(Clone, Copy, PartialEq, Eq)]
pub struct KeyboardReport {
    pub modifier: u8,
    /// Bitmap representing all keycodes from 0 to 215
    pub keycodes: [u8; KEYCODE_BYTES],
}

/// Whether bit `i` of `x` is set.
pub open spec fn bit_set(x: u8, i: u8) -> bool {
    (x >> i) & 1u8 == 1u8
}

/// Whether the keycode bitmap `keycodes` marks `code` as pressed.
pub open spec fn code_pressed(keycodes: Seq<u8>, code: u8) -> bool {
    (code / 8) < keycodes.len() && bit_set(keycodes[(code / 8) as int], code % 8)
}

/// Whether the modifier byte marks `m` as pressed.
pub open spec fn modifier_set(byte: u8, m: Modifier) -> bool {
    byte & m.spec_bits() != 0
}

/// The byte index, and the mask for that byte, of a key in the keycode bitmap.
pub open spec fn spec_key_to_byte_mask(key: Key) -> (usize, u8) {
    ((key.spec_code() / 8) as usize, (1u8 << (key.spec_code() % 8)) as u8)
}

/// Get the byte index, and the mask for that byte, in the keycode bitmap.
pub fn key_to_byte_mask(key: Key) -> (r: (usize, u8))
    ensures
        r == spec_key_to_byte_mask(key),
        r.0 < KEYCODE_BYTES,
{
    let keycode = key.code();
    let byte = keycode >> 3;
    let bit = keycode & 0b111;
    assert(keycode & 7u8 < 8u8) by (bit_vector);
    let mask: u8 = 1 << bit;
    proof {
        lemma_key_code_range(key);
        assert(keycode >> 3u8 == keycode / 8 && keycode & 7u8 == keycode % 8) by (bit_vector);
    }
    (byte as usize, mask)
}

proof fn lemma_or_bit(x: u8, j: u8, i: u8)
    requires
        j < 8,
        i < 8,
    ensures
        bit_set(x | (1u8 << j), i) == (i == j || bit_set(x, i)),
        bit_set(x & !(1u8 << j), i) == (i != j && bit_set(x, i)),
        x & (1u8 << j) != 0 <==> bit_set(x, j),
{
    assert(((x | (1u8 << j)) >> i) & 1u8 == 1u8 <==> (i == j || (x >> i) & 1u8 == 1u8))
        by (bit_vector)
        requires
            j < 8,
            i < 8,
    ;
    assert(((x & !(1u8 << j)) >> i) & 1u8 == 1u8 <==> (i != j && (x >> i) & 1u8 == 1u8))
        by (bit_vector)
        requires
            j < 8,
            i < 8,
    ;
    assert(x & (1u8 << j) != 0 <==> (x >> j) & 1u8 == 1u8) by (bit_vector)
        requires
            j < 8,
    ;
}

proof fn lemma_modifier_or(x: u8, m: Modifier, m2: Modifier)
    ensures
        modifier_set(x | m.spec_bits(), m2) == (m2 == m || modifier_set(x, m2)),
        modifier_set(x & !m.spec_bits(), m2) == (m2 != m && modifier_set(x, m2)),
{
    lemma_modifier_bits(m, m2);
    lemma_modifier_bits(m2, m);
    let a = m.spec_bits();
    let b = m2.spec_bits();
    assert((x | a) & b == (x & b) | (a & b)) by (bit_vector);
    assert((x & !a) & b == (x & b) & !(a & b)) by (bit_vector);
    assert(forall|y: u8, z: u8| #[trigger] (y | z) == y | z && (z == 0 ==> y | z == y))
        by (bit_vector);
    assert(forall|y: u8, z: u8| z == 0 ==> #[trigger] (y & !z) == y) by (bit_vector);
    assert(forall|y: u8| y != 0 ==> #[trigger] (y & !y) == 0) by (bit_vector);
    if m2 == m {
        assert(a & a == a);
        assert((x | a) & a != 0) by (bit_vector)
            requires
                a != 0,
        ;
        assert((x & !a) & a == 0) by (bit_vector);
    }
}

/// The keycode bitmap after marking `key` as pressed or released.
pub open spec fn spec_set_key_codes(codes: Seq<u8>, key: Key, pressed: bool) -> Seq<u8> {
    let b = spec_key_to_byte_mask(key).0 as int;
    let m = spec_key_to_byte_mask(key).1;
    if b < codes.len() {
        codes.update(b, if pressed { codes[b] | m } else { codes[b] & !m })
    } else {
        codes
    }
}

/// The modifier byte after marking `m` as pressed or released.
pub open spec fn spec_set_modifier_byte(byte: u8, m: Modifier, pressed: bool) -> u8 {
    if pressed {
        byte | m.spec_bits()
    } else {
        byte & !m.spec_bits()
    }
}

/// Marking a key changes the mark of that key's code and of no other code.
pub proof fn lemma_set_key_codes(codes: Seq<u8>, key: Key, pressed: bool, c: u8)
    requires
        codes.len() == KEYCODE_BYTES,
    ensures
        code_pressed(spec_set_key_codes(codes, key, pressed), c) == if c == key.spec_code() {
            pressed
        } else {
            code_pressed(codes, c)
        },
{
    let code = key.spec_code();
    lemma_key_code_range(key);
    assert(code >> 3u8 == code / 8 && code & 7u8 == code % 8) by (bit_vector);
    if c / 8 == code / 8 {
        lemma_or_bit(codes[(code / 8) as int], code % 8, c % 8);
        assert(c == code <==> c % 8 == code % 8);
    }
}

/// Marking a modifier changes that modifier's mark and no other modifier's.
pub proof fn lemma_set_modifier_byte(byte: u8, m: Modifier, pressed: bool, m2: Modifier)
    ensures
        modifier_set(spec_set_modifier_byte(byte, m, pressed), m2) == if m2 == m {
            pressed
        } else {
            modifier_set(byte, m2)
        },
{
    lemma_modifier_or(byte, m, m2);
}

/// The report's bytes on the wire.
pub open spec fn spec_report_bytes(r: KeyboardReport) -> Seq<u8> {
    seq![r.modifier] + r.keycodes@
}

/// The report in which nothing is pressed.
pub open spec fn spec_empty_report() -> KeyboardReport {
    KeyboardReport { modifier: 0, keycodes: [0u8; KEYCODE_BYTES] }
}

/// The report descriptor of [KeyboardReport].
pub open spec fn spec_report_descriptor() -> Seq<u8> {
    seq![
        0x05u8, 0x01, 0x09, 0x06, 0xa1, 0x01,
        0x05, 0x07, 0x19, 0xe0, 0x29, 0xe7, 0x15, 0x00, 0x25, 0x01, 0x75, 0x01, 0x95, 0x08, 0x81, 0x02,
        0x19, 0x00, 0x29, 215, 0x95, 216, 0x81, 0x02,
        0x05, 0x08, 0x19, 0x01, 0x29, 0x05, 0x15, 0x00, 0x25, 0x01, 0x75, 0x01, 0x95, 0x05, 0x91, 0x02,
        0x75, 0x03, 0x95, 0x01, 0x91, 0x01,
        0xc0,
    ]
}

impl KeyboardReport {
    /// Whether the report marks `key` as pressed.
    pub open spec fn has_key(self, key: Key) -> bool {
        code_pressed(self.keycodes@, key.spec_code())
    }

    /// The report in which nothing is pressed.
    pub fn empty() -> (r: KeyboardReport)
        ensures
            r == spec_empty_report(),
            forall|c: u8| !#[trigger] code_pressed(r.keycodes@, c),
            forall|m: Modifier| !#[trigger] modifier_set(r.modifier, m),
            r.keycodes@.len() == KEYCODE_BYTES,
    {
        let r = KeyboardReport { modifier: 0, keycodes: [0u8; KEYCODE_BYTES] };
        assert forall|c: u8| !#[trigger] code_pressed(r.keycodes@, c) by {
            if (c / 8) < r.keycodes@.len() {
                assert(r.keycodes@[(c / 8) as int] == 0);
                let i = c % 8;
                assert((0u8 >> i) & 1u8 == 0u8) by (bit_vector);
            }
        }
        assert forall|m: Modifier| !#[trigger] modifier_set(r.modifier, m) by {
            let b = m.spec_bits();
            assert(0u8 & b == 0u8) by (bit_vector);
        }
        r
    }

    /// Marks `key` as pressed or released.
    pub fn set_key(&mut self, key: Key, pressed: bool)
        ensures
            final(self).modifier == old(self).modifier,
            final(self).keycodes@ == spec_set_key_codes(old(self).keycodes@, key, pressed),
            forall|c: u8|
                #![trigger code_pressed(final(self).keycodes@, c)]
                code_pressed(final(self).keycodes@, c) == if c == key.spec_code() {
                    pressed
                } else {
                    code_pressed(old(self).keycodes@, c)
                },
    {
        let (byte, mask) = key_to_byte_mask(key);
        let ghost code = key.spec_code();
        let ghost old_codes = self.keycodes@;
        if byte < KEYCODE_BYTES {
            let k = self.keycodes[byte];
            if pressed {
                self.keycodes[byte] = k | mask;
            } else {
                self.keycodes[byte] = k & !mask;
            }
            assert(self.keycodes@ =~= spec_set_key_codes(old_codes, key, pressed));
        }
        assert forall|c: u8|
            #![trigger code_pressed(self.keycodes@, c)]
            code_pressed(self.keycodes@, c) == if c == code {
                pressed
            } else {
                code_pressed(old_codes, c)
            } by {
            lemma_set_key_codes(old_codes, key, pressed, c);
        }
    }

    /// Marks `key` as pressed.
    pub fn press_key(&mut self, key: Key)
        ensures
            final(self).modifier == old(self).modifier,
            final(self).keycodes@ == spec_set_key_codes(old(self).keycodes@, key, true),
            forall|c: u8|
                #![trigger code_pressed(final(self).keycodes@, c)]
                code_pressed(final(self).keycodes@, c) == (c == key.spec_code()
                    || code_pressed(old(self).keycodes@, c)),
    {
        self.set_key(key, true)
    }

    /// Marks `key` as released.
    pub fn release_key(&mut self, key: Key)
        ensures
            final(self).modifier == old(self).modifier,
            final(self).keycodes@ == spec_set_key_codes(old(self).keycodes@, key, false),
            forall|c: u8|
                #![trigger code_pressed(final(self).keycodes@, c)]
                code_pressed(final(self).keycodes@, c) == (c != key.spec_code()
                    && code_pressed(old(self).keycodes@, c)),
    {
        self.set_key(key, false)
    }

    /// Whether the report marks `key` as pressed.
    pub fn key_pressed(&mut self, key: Key) -> (r: bool)
        ensures
            *final(self) == *old(self),
            r == old(self).has_key(key),
    {
        let (byte, mask) = key_to_byte_mask(key);
        proof {
            lemma_key_code_range(key);
        }
        if byte < KEYCODE_BYTES {
            let k = self.keycodes[byte];
            proof {
                lemma_or_bit(k, key.spec_code() % 8, 0);
            }
            (k & mask) != 0
        } else {
            false
        }
    }

    /// Marks `modifier` as pressed or released.
    pub fn set_modifier(&mut self, modifier: Modifier, pressed: bool)
        ensures
            final(self).keycodes == old(self).keycodes,
            final(self).modifier == spec_set_modifier_byte(old(self).modifier, modifier, pressed),
            forall|m: Modifier|
                #[trigger] modifier_set(final(self).modifier, m) == if m == modifier {
                    pressed
                } else {
                    modifier_set(old(self).modifier, m)
                },
    {
        let ghost old_mod = self.modifier;
        if pressed {
            self.modifier = self.modifier | modifier.bits();
        } else {
            self.modifier = self.modifier & !modifier.bits();
        }
        assert forall|m: Modifier|
            #[trigger] modifier_set(self.modifier, m) == if m == modifier {
                pressed
            } else {
                modifier_set(old_mod, m)
            } by {
            lemma_modifier_or(old_mod, modifier, m);
        }
    }

    /// Marks `modifier` as pressed.
    pub fn press_modifier(&mut self, modifier: Modifier)
        ensures
            final(self).keycodes == old(self).keycodes,
            final(self).modifier == spec_set_modifier_byte(old(self).modifier, modifier, true),
            forall|m: Modifier|
                #[trigger] modifier_set(final(self).modifier, m) == (m == modifier
                    || modifier_set(old(self).modifier, m)),
    {
        self.set_modifier(modifier, true)
    }

    /// Marks `modifier` as released.
    pub fn release_modifier(&mut self, modifier: Modifier)
        ensures
            final(self).keycodes == old(self).keycodes,
            final(self).modifier == spec_set_modifier_byte(old(self).modifier, modifier, false),
            forall|m: Modifier|
                #[trigger] modifier_set(final(self).modifier, m) == (m != modifier
                    && modifier_set(old(self).modifier, m)),
    {
        self.set_modifier(modifier, false)
    }

    /// Whether the report marks `modifier` as pressed.
    pub fn modifier_pressed(&mut self, modifier: Modifier) -> (r: bool)
        ensures
            *final(self) == *old(self),
            r == modifier_set(old(self).modifier, modifier),
    {
        (self.modifier & modifier.bits()) != 0
    }

    /// The report's bytes on the wire: the modifier byte, then the keycode bitmap.
    pub fn as_bytes(&self) -> (r: [u8; REPORT_LEN])
        ensures
            r@ == spec_report_bytes(*self),
    {
        let mut r = [0u8; REPORT_LEN];
        r[0] = self.modifier;
        let mut i: usize = 0;
        while i < KEYCODE_BYTES
            invariant
                i <= KEYCODE_BYTES,
                r@.len() == REPORT_LEN,
                r@[0] == self.modifier,
                forall|j: int| 0 <= j < i ==> r@[j + 1] == self.keycodes@[j],
            decreases KEYCODE_BYTES - i,
        {
            r[i + 1] = self.keycodes[i];
            i = i + 1;
        }
        assert(r@ =~= spec_report_bytes(*self));
        r
    }

    /// The HID report descriptor that announces this report's layout to the host: the
    /// modifier byte, a bitmap of 216 keycodes, and five LED output bits.
    pub fn desc() -> (d: Vec<u8>)
        ensures
            d@ == spec_report_descriptor(),
    {
        let d = vec![
            0x05u8, 0x01, // usage page 1 (generic desktop)
            0x09, 0x06, // usage (keyboard)
            0xa1, 0x01, // collection (application)
            0x05, 0x07, // usage page 7 (keyboard/keypad)
            0x19, 0xe0, // local usage minimum
            0x29, 0xe7, // local usage maximum
            0x15, 0x00, // local minimum
            0x25, 0x01, // local maximum
            0x75, 0x01, // report size (1 bit)
            0x95, 0x08, // report count (8)
            0x81, 0x02, // input (variable)
            0x19, 0x00, // local usage minimum
            0x29, 215, // local usage maximum (215)
            0x95, 216, // report count (216)
            0x81, 0x02, // input (variable)
            0x05, 0x08, // usage page 8 (led page)
            0x19, 0x01, // local usage minimum
            0x29, 0x05, // local usage maximum
            0x15, 0x00, // logical min
            0x25, 0x01, // logical max
            0x75, 0x01, // report size
            0x95, 0x05, // report count
            0x91, 0x02, // output (variable)
            0x75, 0x03, // report size
            0x95, 0x01, // report count
            0x91, 0x01, // output (constant)
            0xc0, // end collection
        ];
        assert(d@ =~= spec_report_descriptor());
        d
    }
}

/// A pressed key is reported as pressed, a released key as released, and pressing or
/// releasing one key leaves the state of every other key as it was.
pub proof fn law_key_press_release(codes: Seq<u8>, key: Key, other: Key, pressed: bool)
    requires
        codes.len() == KEYCODE_BYTES,
    ensures
        code_pressed(spec_set_key_codes(codes, key, true), key.spec_code()),
        !code_pressed(spec_set_key_codes(codes, key, false), key.spec_code()),
        other != key ==> code_pressed(spec_set_key_codes(codes, key, pressed), other.spec_code())
            == code_pressed(codes, other.spec_code()),
{
    lemma_set_key_codes(codes, key, true, key.spec_code());
    lemma_set_key_codes(codes, key, false, key.spec_code());
    lemma_set_key_codes(codes, key, pressed, other.spec_code());
    crate::keys::lemma_key_code_injective(key, other);
}

/// Releasing a key that was just pressed restores the bitmap when the key was not pressed
/// before.
pub proof fn law_press_then_release_restores(codes: Seq<u8>, key: Key)
    requires
        codes.len() == KEYCODE_BYTES,
        !code_pressed(codes, key.spec_code()),
    ensures
        spec_set_key_codes(spec_set_key_codes(codes, key, true), key, false) == codes,
{
    let code = key.spec_code();
    lemma_key_code_range(key);
    let b = (code / 8) as int;
    let x = codes[b];
    let j = code % 8;
    assert(code >> 3u8 == code / 8 && code & 7u8 == code % 8) by (bit_vector);
    assert(((x >> j) & 1u8 != 1u8 && j < 8) ==> ((x | (1u8 << j)) & !(1u8 << j)) == x)
        by (bit_vector);
    assert(spec_set_key_codes(spec_set_key_codes(codes, key, true), key, false) =~= codes);
}

/// A pressed modifier is reported as pressed, a released one as released, and the other
/// modifiers keep their state.
pub proof fn law_modifier_press_release(byte: u8, m: Modifier, other: Modifier, pressed: bool)
    ensures
        modifier_set(spec_set_modifier_byte(byte, m, true), m),
        !modifier_set(spec_set_modifier_byte(byte, m, false), m),
        other != m ==> modifier_set(spec_set_modifier_byte(byte, m, pressed), other)
            == modifier_set(byte, other),
{
    lemma_set_modifier_byte(byte, m, true, m);
    lemma_set_modifier_byte(byte, m, false, m);
    lemma_set_modifier_byte(byte, m, pressed, other);
}

} // verus!
