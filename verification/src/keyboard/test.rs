//! Helpers for trying the keyboard out.

use vstd::prelude::*;

use crate::button::Button;
use crate::keys::Key;

verus! {

/// The ASCII uppercase of the character with code `code`.
pub open spec fn ascii_upper(code: u32) -> u32 {
    if 97 <= code <= 122 {
        (code - 32) as u32
    } else {
        code
    }
}

/// The button that types character `c`: letters of either case, space and newline have one.
pub open spec fn spec_letter_to_key(c: char) -> Button {
    let code = c as u32;
    let upper = ascii_upper(code);
    if code >= 128 {
        Button::Empty
    } else if 65 <= upper <= 90 {
        Button::Key(Key::spec_from_code((upper - 61) as u8).unwrap())
    } else if upper == 32 {
        Button::Key(Key::Space)
    } else if upper == 10 {
        Button::Key(Key::Return)
    } else {
        Button::Empty
    }
}

/// The button that types character `c`, or `Button::Empty` if there is none.
pub fn letter_to_key(c: char) -> (b: Button)
    ensures
        b == spec_letter_to_key(c),
{
    let code = c as u32;
    if code >= 128 {
        return Button::Empty;
    }
    let upper = if 97 <= code && code <= 122 {
        code - 32
    } else {
        code
    };
    let key = match upper {
        65 => Key::A,
        66 => Key::B,
        67 => Key::C,
        68 => Key::D,
        69 => Key::E,
        70 => Key::F,
        71 => Key::G,
        72 => Key::H,
        73 => Key::I,
        74 => Key::J,
        75 => Key::K,
        76 => Key::L,
        77 => Key::M,
        78 => Key::N,
        79 => Key::O,
        80 => Key::P,
        81 => Key::Q,
        82 => Key::R,
        83 => Key::S,
        84 => Key::T,
        85 => Key::U,
        86 => Key::V,
        87 => Key::W,
        88 => Key::X,
        89 => Key::Y,
        90 => Key::Z,
        32 => Key::Space,
        10 => Key::Return,
        _ => {
            return Button::Empty;
        },
    };
    Button::Key(key)
}

/// Lower and upper case letters type the same key.
pub proof fn law_letter_case_insensitive(c: char, d: char)
    requires
        97 <= c as u32 <= 122,
        d as u32 == c as u32 - 32,
    ensures
        spec_letter_to_key(c) == spec_letter_to_key(d),
        spec_letter_to_key(c) is Key,
{
}

} // verus!
