//! Small helpers: a color wheel, and msgpack strings of displayed values.

use vstd::prelude::*;

use crate::rgb::Rgb;
use vstd::string::StringSliceAdditionalSpecFns;

verus! {

/// The components of the color at position `pos` of the color wheel.
pub open spec fn spec_wheel(pos: u8) -> (u8, u8, u8) {
    let w = 255 - pos;
    if w < 85 {
        ((255 - w * 3) as u8, 0u8, (w * 3) as u8)
    } else if w < 170 {
        (0u8, ((w - 85) * 3) as u8, (255 - (w - 85) * 3) as u8)
    } else {
        (((w - 170) * 3) as u8, (255 - (w - 170) * 3) as u8, 0u8)
    }
}

/// Input a value 0 to 255 to get a color value
/// The colours are a transition r - g - b - back to r.
pub fn wheel(mut wheel_pos: u8) -> (c: Rgb)
    ensures
        c == Rgb::new_spec(spec_wheel(wheel_pos).0, spec_wheel(wheel_pos).1, spec_wheel(wheel_pos).2),
        c.spec_components() == spec_wheel(wheel_pos),
{
    let ghost pos = wheel_pos;
    wheel_pos = 255 - wheel_pos;
    if wheel_pos < 85 {
        Rgb::new(255 - wheel_pos * 3, 0, wheel_pos * 3)
    } else if wheel_pos < 170 {
        wheel_pos -= 85;
        Rgb::new(0, wheel_pos * 3, 255 - wheel_pos * 3)
    } else {
        wheel_pos -= 170;
        Rgb::new(wheel_pos * 3, 255 - wheel_pos * 3, 0)
    }
}

/// Every color of the wheel has components that add up to 255, and exactly one of them is
/// zero except where two meet at a primary color.
pub proof fn law_wheel_brightness(pos: u8)
    ensures
        spec_wheel(pos).0 + spec_wheel(pos).1 + spec_wheel(pos).2 == 255,
        spec_wheel(pos).0 == 0 || spec_wheel(pos).1 == 0 || spec_wheel(pos).2 == 0,
{
}

/// The wheel starts and ends at pure red, and passes through pure green and pure blue.
pub proof fn law_wheel_primaries()
    ensures
        spec_wheel(0) == (255u8, 0u8, 0u8),
        spec_wheel(255) == (255u8, 0u8, 0u8),
        spec_wheel(85) == (0u8, 255u8, 0u8),
        spec_wheel(170) == (0u8, 0u8, 255u8),
{
}

/// The length in bytes of the formatted text of a value, given that text.
pub fn display_len(text: &str) -> (n: usize)
    ensures
        n == text.spec_bytes().len() as usize,
{
    text.len()
}

/// Wrapper type that packs a displayed value as a msgpack string.
pub struct DisplayPack<T>(pub T);

/// The msgpack marker of a string with a 32-bit length.
pub const MSGPACK_STR32: u8 = 0xdb;

/// The big-endian bytes of `x`.
pub open spec fn be32(x: u32) -> Seq<u8> {
    seq![
        (x / 0x1000000) as u8,
        ((x / 0x10000) % 0x100) as u8,
        ((x / 0x100) % 0x100) as u8,
        (x % 0x100) as u8,
    ]
}

/// The msgpack string that holds `text`, always with the 32-bit length form.
pub open spec fn spec_pack_str32(text: Seq<u8>) -> Seq<u8> {
    seq![MSGPACK_STR32] + be32(text.len() as u32) + text
}

/// Packs the formatted text of a value as a msgpack string (marker, 32-bit big-endian length,
/// UTF-8 bytes), as [DisplayPack] does. Returns the bytes.
pub fn pack_str32(text: &str) -> (bytes: Vec<u8>)
    requires
        text.spec_bytes().len() <= u32::MAX,
    ensures
        bytes@ == spec_pack_str32(text.spec_bytes()),
{
    let raw = text.as_bytes();
    let len = raw.len() as u32;
    let mut bytes: Vec<u8> = Vec::new();
    bytes.push(MSGPACK_STR32);
    bytes.push((len / 0x1000000) as u8);
    bytes.push(((len / 0x10000) % 0x100) as u8);
    bytes.push(((len / 0x100) % 0x100) as u8);
    bytes.push((len % 0x100) as u8);
    let ghost head = bytes@;
    let mut i: usize = 0;
    while i < raw.len()
        invariant
            i <= raw@.len(),
            bytes@ == head + raw@.take(i as int),
        decreases raw@.len() - i,
    {
        bytes.push(raw[i]);
        i = i + 1;
        assert(bytes@ =~= head + raw@.take(i as int));
    }
    assert(raw@.take(raw@.len() as int) =~= raw@);
    assert(head =~= seq![MSGPACK_STR32] + be32(len));
    bytes
}

} // verus!
