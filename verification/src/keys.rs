//! USB HID keyboard/keypad usage codes.
//!
//! The codes follow the USB HID usage tables, keyboard/keypad page.

use vstd::prelude::*;

verus! {

/// A key on the keyboard/keypad usage page.
#[derive(Clone, Copy, Debug, PartialEq, Eq, Structural)]
pub enum Key {
    A,
    B,
    C,
    D,
    E,
    F,
    G,
    H,
    I,
    J,
    K,
    L,
    M,
    N,
    O,
    P,
    Q,
    R,
    S,
    T,
    U,
    V,
    W,
    X,
    Y,
    Z,
    /// Keyboard 1 and !
    D1,
    /// Keyboard 2 and @
    D2,
    /// Keyboard 3 and #
    D3,
    /// Keyboard 4 and $
    D4,
    /// Keyboard 5 and %
    D5,
    /// Keyboard 6 and ∧
    D6,
    /// Keyboard 7 and &
    D7,
    /// Keyboard 8 and *
    D8,
    /// Keyboard 9 and (
    D9,
    /// Keyboard 0 and )
    D0,
    Return,
    Escape,
    /// Keyboard DELETE (Backspace)
    Backspace,
    Tab,
    /// Keyboard Spacebar
    Space,
    /// Keyboard - and (underscore)
    Dash,
    /// Keyboard = and +2
    Equal,
    /// Keyboard [ and {
    LBracket,
    /// Keyboard ] and }
    RBracket,
    /// Keyboard \and |
    BackslashPipe,
    /// Keyboard Non-US # and  ̃
    Pound,
    /// Keyboard ; and :
    Colon,
    /// Keyboard ‘ and “
    Apostrophe,
    /// Keyboard Grave Accent and Tilde
    Accent,
    /// Keyboard , and <
    Comma,
    /// Keyboard . and >
    Period,
    /// Keyboard / and ?
    Slash,
    CapsLock,
    F1,
    F2,
    F3,
    F4,
    F5,
    F6,
    F7,
    F8,
    F9,
    F10,
    F11,
    F12,
    /// Keyboard PrintScreen
    PrintScreen,
    /// Keyboard Scroll Lock
    ScrollLock,
    /// Keyboard Pause
    Pause,
    /// Keyboard Insert
    Insert,
    /// Keyboard Home
    Home,
    /// Keyboard PageUp
    PageUp,
    /// Keyboard Delete Forward
    Delete,
    /// KeyboardEnd7
    End,
    /// Keyboard PageDown7
    PageDown7,
    /// Keyboard RightArrow7
    RightArrow7,
    /// Keyboard LeftArrow7
    LeftArrow7,
    /// Keyboard DownArrow7
    DownArrow7,
    /// Keyboard UpArrow7
    UpArrow7,
    /// Keypad Num Lock and Clear6
    KeypadNumLock,
    /// Keypad /
    KeypadSlash,
    /// Keypad *
    KeypadAsterisk,
    /// Keypad -
    KeypadMinus,
    /// Keypad +
    KeypadPlus,
    /// KeypadEnter
    KeypadEnter,
    /// Keypad 1 and End
    Keypad1,
    /// Keypad 2 and Down Arrow
    Keypad2,
    /// Keypad 3 and PageDn
    Keypad3,
    /// Keypad 4 and Left Arrow
    Keypad4,
    /// Keypad 5
    Keypad5,
    /// Keypad 6 and Right Arrow
    Keypad6,
    /// Keypad 7 and Home
    Keypad7,
    /// Keypad 8 and Up Arrow
    Keypad8,
    /// Keypad 9 and PageUp
    Keypad9,
    /// Keypad 0 and Insert
    Keypad0,
    /// Keypad . and Delete
    KbPeriod,
    /// Keyboard Non-US \ and |
    NonUsBackslashPipe,
    Application,
    Power,
    /// Keypad =
    KpEqual,
    F13,
    F14,
    F15,
    F16,
    F17,
    F18,
    F19,
    F20,
    F21,
    F22,
    F23,
    F24,
    Execute,
    Help,
    Menu,
    Select,
    Stop,
    Again,
    Undo,
    Cut,
    Copy,
    Paste,
    Find,
    Mute,
    VolumeUp,
    VolumeDown,
    /// Keyboard Locking Caps Lock
    LockingCapsLock,
    /// Keyboard Locking Num Lock
    LockingNumLock,
    /// Keyboard Locking Scroll Lock
    LockingScrollLock,
    /// Keypad ,
    KpComma,
    /// Keypad Equal Sign
    KpEqualSIgn,
    International1,
    International2,
    International3,
    International4,
    International5,
    International6,
    International7,
    International8,
    International9,
    Lang1,
    Lang2,
    Lang3,
    Lang4,
    Lang5,
    Lang6,
    Lang7,
    Lang8,
    Lang9,
    /// Keyboard Alternative Erase
    AltErase,
    /// Keyboard SysReq/Attention
    SysReq,
    Cancel,
    Clear,
    Prior,
    /// Keyboard Return
    Return2,
    /// Keyboard Separator
    Separator,
    /// Keyboard Out
    Out,
    /// Keyboard Oper
    Oper,
    /// Keyboard Clear/Again
    ClearAgain,
    /// Keyboard CrSel/Props
    CrSel,
    /// Keyboard ExSel
    ExSel,
}

/// The smallest usage code of a [Key].
pub const MIN_KEY_CODE: u8 = 0x04;

/// The largest usage code of a [Key].
pub const MAX_KEY_CODE: u8 = 0xA4;

impl Key {
    /// The usage code of this key.
    pub open spec fn spec_code(self) -> u8 {
        match self {
            Key::A => 0x04,
            Key::B => 0x05,
            Key::C => 0x06,
            Key::D => 0x07,
            Key::E => 0x08,
            Key::F => 0x09,
            Key::G => 0x0A,
            Key::H => 0x0B,
            Key::I => 0x0C,
            Key::J => 0x0D,
            Key::K => 0x0E,
            Key::L => 0x0F,
            Key::M => 0x10,
            Key::N => 0x11,
            Key::O => 0x12,
            Key::P => 0x13,
            Key::Q => 0x14,
            Key::R => 0x15,
            Key::S => 0x16,
            Key::T => 0x17,
            Key::U => 0x18,
            Key::V => 0x19,
            Key::W => 0x1A,
            Key::X => 0x1B,
            Key::Y => 0x1C,
            Key::Z => 0x1D,
            Key::D1 => 0x1E,
            Key::D2 => 0x1F,
            Key::D3 => 0x20,
            Key::D4 => 0x21,
            Key::D5 => 0x22,
            Key::D6 => 0x23,
            Key::D7 => 0x24,
            Key::D8 => 0x25,
            Key::D9 => 0x26,
            Key::D0 => 0x27,
            Key::Return => 0x28,
            Key::Escape => 0x29,
            Key::Backspace => 0x2A,
            Key::Tab => 0x2B,
            Key::Space => 0x2C,
            Key::Dash => 0x2D,
            Key::Equal => 0x2E,
            Key::LBracket => 0x2F,
            Key::RBracket => 0x30,
            Key::BackslashPipe => 0x31,
            Key::Pound => 0x32,
            Key::Colon => 0x33,
            Key::Apostrophe => 0x34,
            Key::Accent => 0x35,
            Key::Comma => 0x36,
            Key::Period => 0x37,
            Key::Slash => 0x38,
            Key::CapsLock => 0x39,
            Key::F1 => 0x3A,
            Key::F2 => 0x3B,
            Key::F3 => 0x3C,
            Key::F4 => 0x3D,
            Key::F5 => 0x3E,
            Key::F6 => 0x3F,
            Key::F7 => 0x40,
            Key::F8 => 0x41,
            Key::F9 => 0x42,
            Key::F10 => 0x43,
            Key::F11 => 0x44,
            Key::F12 => 0x45,
            Key::PrintScreen => 0x46,
            Key::ScrollLock => 0x47,
            Key::Pause => 0x48,
            Key::Insert => 0x49,
            Key::Home => 0x4A,
            Key::PageUp => 0x4B,
            Key::Delete => 0x4C,
            Key::End => 0x4D,
            Key::PageDown7 => 0x4E,
            Key::RightArrow7 => 0x4F,
            Key::LeftArrow7 => 0x50,
            Key::DownArrow7 => 0x51,
            Key::UpArrow7 => 0x52,
            Key::KeypadNumLock => 0x53,
            Key::KeypadSlash => 0x54,
            Key::KeypadAsterisk => 0x55,
            Key::KeypadMinus => 0x56,
            Key::KeypadPlus => 0x57,
            Key::KeypadEnter => 0x58,
            Key::Keypad1 => 0x59,
            Key::Keypad2 => 0x5A,
            Key::Keypad3 => 0x5B,
            Key::Keypad4 => 0x5C,
            Key::Keypad5 => 0x5D,
            Key::Keypad6 => 0x5E,
            Key::Keypad7 => 0x5F,
            Key::Keypad8 => 0x60,
            Key::Keypad9 => 0x61,
            Key::Keypad0 => 0x62,
            Key::KbPeriod => 0x63,
            Key::NonUsBackslashPipe => 0x64,
            Key::Application => 0x65,
            Key::Power => 0x66,
            Key::KpEqual => 0x67,
            Key::F13 => 0x68,
            Key::F14 => 0x69,
            Key::F15 => 0x6A,
            Key::F16 => 0x6B,
            Key::F17 => 0x6C,
            Key::F18 => 0x6D,
            Key::F19 => 0x6E,
            Key::F20 => 0x6F,
            Key::F21 => 0x70,
            Key::F22 => 0x71,
            Key::F23 => 0x72,
            Key::F24 => 0x73,
            Key::Execute => 0x74,
            Key::Help => 0x75,
            Key::Menu => 0x76,
            Key::Select => 0x77,
            Key::Stop => 0x78,
            Key::Again => 0x79,
            Key::Undo => 0x7A,
            Key::Cut => 0x7B,
            Key::Copy => 0x7C,
            Key::Paste => 0x7D,
            Key::Find => 0x7E,
            Key::Mute => 0x7F,
            Key::VolumeUp => 0x80,
            Key::VolumeDown => 0x81,
            Key::LockingCapsLock => 0x82,
            Key::LockingNumLock => 0x83,
            Key::LockingScrollLock => 0x84,
            Key::KpComma => 0x85,
            Key::KpEqualSIgn => 0x86,
            Key::International1 => 0x87,
            Key::International2 => 0x88,
            Key::International3 => 0x89,
            Key::International4 => 0x8A,
            Key::International5 => 0x8B,
            Key::International6 => 0x8C,
            Key::International7 => 0x8D,
            Key::International8 => 0x8E,
            Key::International9 => 0x8F,
            Key::Lang1 => 0x90,
            Key::Lang2 => 0x91,
            Key::Lang3 => 0x92,
            Key::Lang4 => 0x93,
            Key::Lang5 => 0x94,
            Key::Lang6 => 0x95,
            Key::Lang7 => 0x96,
            Key::Lang8 => 0x97,
            Key::Lang9 => 0x98,
            Key::AltErase => 0x99,
            Key::SysReq => 0x9A,
            Key::Cancel => 0x9B,
            Key::Clear => 0x9C,
            Key::Prior => 0x9D,
            Key::Return2 => 0x9E,
            Key::Separator => 0x9F,
            Key::Out => 0xA0,
            Key::Oper => 0xA1,
            Key::ClearAgain => 0xA2,
            Key::CrSel => 0xA3,
            Key::ExSel => 0xA4,
        }
    }

    /// The usage code of this key.
    pub fn code(self) -> (c: u8)
        ensures
            c == self.spec_code(),
    {
        match self {
            Key::A => 0x04,
            Key::B => 0x05,
            Key::C => 0x06,
            Key::D => 0x07,
            Key::E => 0x08,
            Key::F => 0x09,
            Key::G => 0x0A,
            Key::H => 0x0B,
            Key::I => 0x0C,
            Key::J => 0x0D,
            Key::K => 0x0E,
            Key::L => 0x0F,
            Key::M => 0x10,
            Key::N => 0x11,
            Key::O => 0x12,
            Key::P => 0x13,
            Key::Q => 0x14,
            Key::R => 0x15,
            Key::S => 0x16,
            Key::T => 0x17,
            Key::U => 0x18,
            Key::V => 0x19,
            Key::W => 0x1A,
            Key::X => 0x1B,
            Key::Y => 0x1C,
            Key::Z => 0x1D,
            Key::D1 => 0x1E,
            Key::D2 => 0x1F,
            Key::D3 => 0x20,
            Key::D4 => 0x21,
            Key::D5 => 0x22,
            Key::D6 => 0x23,
            Key::D7 => 0x24,
            Key::D8 => 0x25,
            Key::D9 => 0x26,
            Key::D0 => 0x27,
            Key::Return => 0x28,
            Key::Escape => 0x29,
            Key::Backspace => 0x2A,
            Key::Tab => 0x2B,
            Key::Space => 0x2C,
            Key::Dash => 0x2D,
            Key::Equal => 0x2E,
            Key::LBracket => 0x2F,
            Key::RBracket => 0x30,
            Key::BackslashPipe => 0x31,
            Key::Pound => 0x32,
            Key::Colon => 0x33,
            Key::Apostrophe => 0x34,
            Key::Accent => 0x35,
            Key::Comma => 0x36,
            Key::Period => 0x37,
            Key::Slash => 0x38,
            Key::CapsLock => 0x39,
            Key::F1 => 0x3A,
            Key::F2 => 0x3B,
            Key::F3 => 0x3C,
            Key::F4 => 0x3D,
            Key::F5 => 0x3E,
            Key::F6 => 0x3F,
            Key::F7 => 0x40,
            Key::F8 => 0x41,
            Key::F9 => 0x42,
            Key::F10 => 0x43,
            Key::F11 => 0x44,
            Key::F12 => 0x45,
            Key::PrintScreen => 0x46,
            Key::ScrollLock => 0x47,
            Key::Pause => 0x48,
            Key::Insert => 0x49,
            Key::Home => 0x4A,
            Key::PageUp => 0x4B,
            Key::Delete => 0x4C,
            Key::End => 0x4D,
            Key::PageDown7 => 0x4E,
            Key::RightArrow7 => 0x4F,
            Key::LeftArrow7 => 0x50,
            Key::DownArrow7 => 0x51,
            Key::UpArrow7 => 0x52,
            Key::KeypadNumLock => 0x53,
            Key::KeypadSlash => 0x54,
            Key::KeypadAsterisk => 0x55,
            Key::KeypadMinus => 0x56,
            Key::KeypadPlus => 0x57,
            Key::KeypadEnter => 0x58,
            Key::Keypad1 => 0x59,
            Key::Keypad2 => 0x5A,
            Key::Keypad3 => 0x5B,
            Key::Keypad4 => 0x5C,
            Key::Keypad5 => 0x5D,
            Key::Keypad6 => 0x5E,
            Key::Keypad7 => 0x5F,
            Key::Keypad8 => 0x60,
            Key::Keypad9 => 0x61,
            Key::Keypad0 => 0x62,
            Key::KbPeriod => 0x63,
            Key::NonUsBackslashPipe => 0x64,
            Key::Application => 0x65,
            Key::Power => 0x66,
            Key::KpEqual => 0x67,
            Key::F13 => 0x68,
            Key::F14 => 0x69,
            Key::F15 => 0x6A,
            Key::F16 => 0x6B,
            Key::F17 => 0x6C,
            Key::F18 => 0x6D,
            Key::F19 => 0x6E,
            Key::F20 => 0x6F,
            Key::F21 => 0x70,
            Key::F22 => 0x71,
            Key::F23 => 0x72,
            Key::F24 => 0x73,
            Key::Execute => 0x74,
            Key::Help => 0x75,
            Key::Menu => 0x76,
            Key::Select => 0x77,
            Key::Stop => 0x78,
            Key::Again => 0x79,
            Key::Undo => 0x7A,
            Key::Cut => 0x7B,
            Key::Copy => 0x7C,
            Key::Paste => 0x7D,
            Key::Find => 0x7E,
            Key::Mute => 0x7F,
            Key::VolumeUp => 0x80,
            Key::VolumeDown => 0x81,
            Key::LockingCapsLock => 0x82,
            Key::LockingNumLock => 0x83,
            Key::LockingScrollLock => 0x84,
            Key::KpComma => 0x85,
            Key::KpEqualSIgn => 0x86,
            Key::International1 => 0x87,
            Key::International2 => 0x88,
            Key::International3 => 0x89,
            Key::International4 => 0x8A,
            Key::International5 => 0x8B,
            Key::International6 => 0x8C,
            Key::International7 => 0x8D,
            Key::International8 => 0x8E,
            Key::International9 => 0x8F,
            Key::Lang1 => 0x90,
            Key::Lang2 => 0x91,
            Key::Lang3 => 0x92,
            Key::Lang4 => 0x93,
            Key::Lang5 => 0x94,
            Key::Lang6 => 0x95,
            Key::Lang7 => 0x96,
            Key::Lang8 => 0x97,
            Key::Lang9 => 0x98,
            Key::AltErase => 0x99,
            Key::SysReq => 0x9A,
            Key::Cancel => 0x9B,
            Key::Clear => 0x9C,
            Key::Prior => 0x9D,
            Key::Return2 => 0x9E,
            Key::Separator => 0x9F,
            Key::Out => 0xA0,
            Key::Oper => 0xA1,
            Key::ClearAgain => 0xA2,
            Key::CrSel => 0xA3,
            Key::ExSel => 0xA4,
        }
    }

    /// The name of this key, as it is displayed.
    pub open spec fn spec_name(self) -> &'static str {
        match self {
            Key::A => "A",
            Key::B => "B",
            Key::C => "C",
            Key::D => "D",
            Key::E => "E",
            Key::F => "F",
            Key::G => "G",
            Key::H => "H",
            Key::I => "I",
            Key::J => "J",
            Key::K => "K",
            Key::L => "L",
            Key::M => "M",
            Key::N => "N",
            Key::O => "O",
            Key::P => "P",
            Key::Q => "Q",
            Key::R => "R",
            Key::S => "S",
            Key::T => "T",
            Key::U => "U",
            Key::V => "V",
            Key::W => "W",
            Key::X => "X",
            Key::Y => "Y",
            Key::Z => "Z",
            Key::D1 => "D1",
            Key::D2 => "D2",
            Key::D3 => "D3",
            Key::D4 => "D4",
            Key::D5 => "D5",
            Key::D6 => "D6",
            Key::D7 => "D7",
            Key::D8 => "D8",
            Key::D9 => "D9",
            Key::D0 => "D0",
            Key::Return => "Return",
            Key::Escape => "Escape",
            Key::Backspace => "Backspace",
            Key::Tab => "Tab",
            Key::Space => "Space",
            Key::Dash => "Dash",
            Key::Equal => "Equal",
            Key::LBracket => "LBracket",
            Key::RBracket => "RBracket",
            Key::BackslashPipe => "BackslashPipe",
            Key::Pound => "Pound",
            Key::Colon => "Colon",
            Key::Apostrophe => "Apostrophe",
            Key::Accent => "Accent",
            Key::Comma => "Comma",
            Key::Period => "Period",
            Key::Slash => "Slash",
            Key::CapsLock => "CapsLock",
            Key::F1 => "F1",
            Key::F2 => "F2",
            Key::F3 => "F3",
            Key::F4 => "F4",
            Key::F5 => "F5",
            Key::F6 => "F6",
            Key::F7 => "F7",
            Key::F8 => "F8",
            Key::F9 => "F9",
            Key::F10 => "F10",
            Key::F11 => "F11",
            Key::F12 => "F12",
            Key::PrintScreen => "PrintScreen",
            Key::ScrollLock => "ScrollLock",
            Key::Pause => "Pause",
            Key::Insert => "Insert",
            Key::Home => "Home",
            Key::PageUp => "PageUp",
            Key::Delete => "Delete",
            Key::End => "End",
            Key::PageDown7 => "PageDown7",
            Key::RightArrow7 => "RightArrow7",
            Key::LeftArrow7 => "LeftArrow7",
            Key::DownArrow7 => "DownArrow7",
            Key::UpArrow7 => "UpArrow7",
            Key::KeypadNumLock => "KeypadNumLock",
            Key::KeypadSlash => "KeypadSlash",
            Key::KeypadAsterisk => "KeypadAsterisk",
            Key::KeypadMinus => "KeypadMinus",
            Key::KeypadPlus => "KeypadPlus",
            Key::KeypadEnter => "KeypadEnter",
            Key::Keypad1 => "Keypad1",
            Key::Keypad2 => "Keypad2",
            Key::Keypad3 => "Keypad3",
            Key::Keypad4 => "Keypad4",
            Key::Keypad5 => "Keypad5",
            Key::Keypad6 => "Keypad6",
            Key::Keypad7 => "Keypad7",
            Key::Keypad8 => "Keypad8",
            Key::Keypad9 => "Keypad9",
            Key::Keypad0 => "Keypad0",
            Key::KbPeriod => "KbPeriod",
            Key::NonUsBackslashPipe => "NonUsBackslashPipe",
            Key::Application => "Application",
            Key::Power => "Power",
            Key::KpEqual => "KpEqual",
            Key::F13 => "F13",
            Key::F14 => "F14",
            Key::F15 => "F15",
            Key::F16 => "F16",
            Key::F17 => "F17",
            Key::F18 => "F18",
            Key::F19 => "F19",
            Key::F20 => "F20",
            Key::F21 => "F21",
            Key::F22 => "F22",
            Key::F23 => "F23",
            Key::F24 => "F24",
            Key::Execute => "Execute",
            Key::Help => "Help",
            Key::Menu => "Menu",
            Key::Select => "Select",
            Key::Stop => "Stop",
            Key::Again => "Again",
            Key::Undo => "Undo",
            Key::Cut => "Cut",
            Key::Copy => "Copy",
            Key::Paste => "Paste",
            Key::Find => "Find",
            Key::Mute => "Mute",
            Key::VolumeUp => "VolumeUp",
            Key::VolumeDown => "VolumeDown",
            Key::LockingCapsLock => "LockingCapsLock",
            Key::LockingNumLock => "LockingNumLock",
            Key::LockingScrollLock => "LockingScrollLock",
            Key::KpComma => "KpComma",
            Key::KpEqualSIgn => "KpEqualSIgn",
            Key::International1 => "International1",
            Key::International2 => "International2",
            Key::International3 => "International3",
            Key::International4 => "International4",
            Key::International5 => "International5",
            Key::International6 => "International6",
            Key::International7 => "International7",
            Key::International8 => "International8",
            Key::International9 => "International9",
            Key::Lang1 => "Lang1",
            Key::Lang2 => "Lang2",
            Key::Lang3 => "Lang3",
            Key::Lang4 => "Lang4",
            Key::Lang5 => "Lang5",
            Key::Lang6 => "Lang6",
            Key::Lang7 => "Lang7",
            Key::Lang8 => "Lang8",
            Key::Lang9 => "Lang9",
            Key::AltErase => "AltErase",
            Key::SysReq => "SysReq",
            Key::Cancel => "Cancel",
            Key::Clear => "Clear",
            Key::Prior => "Prior",
            Key::Return2 => "Return2",
            Key::Separator => "Separator",
            Key::Out => "Out",
            Key::Oper => "Oper",
            Key::ClearAgain => "ClearAgain",
            Key::CrSel => "CrSel",
            Key::ExSel => "ExSel",
        }
    }

    /// The name of this key, as it is displayed.
    pub fn name(self) -> (n: &'static str)
        ensures
            n == self.spec_name(),
    {
        match self {
            Key::A => "A",
            Key::B => "B",
            Key::C => "C",
            Key::D => "D",
            Key::E => "E",
            Key::F => "F",
            Key::G => "G",
            Key::H => "H",
            Key::I => "I",
            Key::J => "J",
            Key::K => "K",
            Key::L => "L",
            Key::M => "M",
            Key::N => "N",
            Key::O => "O",
            Key::P => "P",
            Key::Q => "Q",
            Key::R => "R",
            Key::S => "S",
            Key::T => "T",
            Key::U => "U",
            Key::V => "V",
            Key::W => "W",
            Key::X => "X",
            Key::Y => "Y",
            Key::Z => "Z",
            Key::D1 => "D1",
            Key::D2 => "D2",
            Key::D3 => "D3",
            Key::D4 => "D4",
            Key::D5 => "D5",
            Key::D6 => "D6",
            Key::D7 => "D7",
            Key::D8 => "D8",
            Key::D9 => "D9",
            Key::D0 => "D0",
            Key::Return => "Return",
            Key::Escape => "Escape",
            Key::Backspace => "Backspace",
            Key::Tab => "Tab",
            Key::Space => "Space",
            Key::Dash => "Dash",
            Key::Equal => "Equal",
            Key::LBracket => "LBracket",
            Key::RBracket => "RBracket",
            Key::BackslashPipe => "BackslashPipe",
            Key::Pound => "Pound",
            Key::Colon => "Colon",
            Key::Apostrophe => "Apostrophe",
            Key::Accent => "Accent",
            Key::Comma => "Comma",
            Key::Period => "Period",
            Key::Slash => "Slash",
            Key::CapsLock => "CapsLock",
            Key::F1 => "F1",
            Key::F2 => "F2",
            Key::F3 => "F3",
            Key::F4 => "F4",
            Key::F5 => "F5",
            Key::F6 => "F6",
            Key::F7 => "F7",
            Key::F8 => "F8",
            Key::F9 => "F9",
            Key::F10 => "F10",
            Key::F11 => "F11",
            Key::F12 => "F12",
            Key::PrintScreen => "PrintScreen",
            Key::ScrollLock => "ScrollLock",
            Key::Pause => "Pause",
            Key::Insert => "Insert",
            Key::Home => "Home",
            Key::PageUp => "PageUp",
            Key::Delete => "Delete",
            Key::End => "End",
            Key::PageDown7 => "PageDown7",
            Key::RightArrow7 => "RightArrow7",
            Key::LeftArrow7 => "LeftArrow7",
            Key::DownArrow7 => "DownArrow7",
            Key::UpArrow7 => "UpArrow7",
            Key::KeypadNumLock => "KeypadNumLock",
            Key::KeypadSlash => "KeypadSlash",
            Key::KeypadAsterisk => "KeypadAsterisk",
            Key::KeypadMinus => "KeypadMinus",
            Key::KeypadPlus => "KeypadPlus",
            Key::KeypadEnter => "KeypadEnter",
            Key::Keypad1 => "Keypad1",
            Key::Keypad2 => "Keypad2",
            Key::Keypad3 => "Keypad3",
            Key::Keypad4 => "Keypad4",
            Key::Keypad5 => "Keypad5",
            Key::Keypad6 => "Keypad6",
            Key::Keypad7 => "Keypad7",
            Key::Keypad8 => "Keypad8",
            Key::Keypad9 => "Keypad9",
            Key::Keypad0 => "Keypad0",
            Key::KbPeriod => "KbPeriod",
            Key::NonUsBackslashPipe => "NonUsBackslashPipe",
            Key::Application => "Application",
            Key::Power => "Power",
            Key::KpEqual => "KpEqual",
            Key::F13 => "F13",
            Key::F14 => "F14",
            Key::F15 => "F15",
            Key::F16 => "F16",
            Key::F17 => "F17",
            Key::F18 => "F18",
            Key::F19 => "F19",
            Key::F20 => "F20",
            Key::F21 => "F21",
            Key::F22 => "F22",
            Key::F23 => "F23",
            Key::F24 => "F24",
            Key::Execute => "Execute",
            Key::Help => "Help",
            Key::Menu => "Menu",
            Key::Select => "Select",
            Key::Stop => "Stop",
            Key::Again => "Again",
            Key::Undo => "Undo",
            Key::Cut => "Cut",
            Key::Copy => "Copy",
            Key::Paste => "Paste",
            Key::Find => "Find",
            Key::Mute => "Mute",
            Key::VolumeUp => "VolumeUp",
            Key::VolumeDown => "VolumeDown",
            Key::LockingCapsLock => "LockingCapsLock",
            Key::LockingNumLock => "LockingNumLock",
            Key::LockingScrollLock => "LockingScrollLock",
            Key::KpComma => "KpComma",
            Key::KpEqualSIgn => "KpEqualSIgn",
            Key::International1 => "International1",
            Key::International2 => "International2",
            Key::International3 => "International3",
            Key::International4 => "International4",
            Key::International5 => "International5",
            Key::International6 => "International6",
            Key::International7 => "International7",
            Key::International8 => "International8",
            Key::International9 => "International9",
            Key::Lang1 => "Lang1",
            Key::Lang2 => "Lang2",
            Key::Lang3 => "Lang3",
            Key::Lang4 => "Lang4",
            Key::Lang5 => "Lang5",
            Key::Lang6 => "Lang6",
            Key::Lang7 => "Lang7",
            Key::Lang8 => "Lang8",
            Key::Lang9 => "Lang9",
            Key::AltErase => "AltErase",
            Key::SysReq => "SysReq",
            Key::Cancel => "Cancel",
            Key::Clear => "Clear",
            Key::Prior => "Prior",
            Key::Return2 => "Return2",
            Key::Separator => "Separator",
            Key::Out => "Out",
            Key::Oper => "Oper",
            Key::ClearAgain => "ClearAgain",
            Key::CrSel => "CrSel",
            Key::ExSel => "ExSel",
        }
    }

    /// The key with the given usage code, if there is one.
    pub open spec fn spec_from_code(code: u8) -> Option<Key> {
        match code {
            0x04 => Some(Key::A),
            0x05 => Some(Key::B),
            0x06 => Some(Key::C),
            0x07 => Some(Key::D),
            0x08 => Some(Key::E),
            0x09 => Some(Key::F),
            0x0A => Some(Key::G),
            0x0B => Some(Key::H),
            0x0C => Some(Key::I),
            0x0D => Some(Key::J),
            0x0E => Some(Key::K),
            0x0F => Some(Key::L),
            0x10 => Some(Key::M),
            0x11 => Some(Key::N),
            0x12 => Some(Key::O),
            0x13 => Some(Key::P),
            0x14 => Some(Key::Q),
            0x15 => Some(Key::R),
            0x16 => Some(Key::S),
            0x17 => Some(Key::T),
            0x18 => Some(Key::U),
            0x19 => Some(Key::V),
            0x1A => Some(Key::W),
            0x1B => Some(Key::X),
            0x1C => Some(Key::Y),
            0x1D => Some(Key::Z),
            0x1E => Some(Key::D1),
            0x1F => Some(Key::D2),
            0x20 => Some(Key::D3),
            0x21 => Some(Key::D4),
            0x22 => Some(Key::D5),
            0x23 => Some(Key::D6),
            0x24 => Some(Key::D7),
            0x25 => Some(Key::D8),
            0x26 => Some(Key::D9),
            0x27 => Some(Key::D0),
            0x28 => Some(Key::Return),
            0x29 => Some(Key::Escape),
            0x2A => Some(Key::Backspace),
            0x2B => Some(Key::Tab),
            0x2C => Some(Key::Space),
            0x2D => Some(Key::Dash),
            0x2E => Some(Key::Equal),
            0x2F => Some(Key::LBracket),
            0x30 => Some(Key::RBracket),
            0x31 => Some(Key::BackslashPipe),
            0x32 => Some(Key::Pound),
            0x33 => Some(Key::Colon),
            0x34 => Some(Key::Apostrophe),
            0x35 => Some(Key::Accent),
            0x36 => Some(Key::Comma),
            0x37 => Some(Key::Period),
            0x38 => Some(Key::Slash),
            0x39 => Some(Key::CapsLock),
            0x3A => Some(Key::F1),
            0x3B => Some(Key::F2),
            0x3C => Some(Key::F3),
            0x3D => Some(Key::F4),
            0x3E => Some(Key::F5),
            0x3F => Some(Key::F6),
            0x40 => Some(Key::F7),
            0x41 => Some(Key::F8),
            0x42 => Some(Key::F9),
            0x43 => Some(Key::F10),
            0x44 => Some(Key::F11),
            0x45 => Some(Key::F12),
            0x46 => Some(Key::PrintScreen),
            0x47 => Some(Key::ScrollLock),
            0x48 => Some(Key::Pause),
            0x49 => Some(Key::Insert),
            0x4A => Some(Key::Home),
            0x4B => Some(Key::PageUp),
            0x4C => Some(Key::Delete),
            0x4D => Some(Key::End),
            0x4E => Some(Key::PageDown7),
            0x4F => Some(Key::RightArrow7),
            0x50 => Some(Key::LeftArrow7),
            0x51 => Some(Key::DownArrow7),
            0x52 => Some(Key::UpArrow7),
            0x53 => Some(Key::KeypadNumLock),
            0x54 => Some(Key::KeypadSlash),
            0x55 => Some(Key::KeypadAsterisk),
            0x56 => Some(Key::KeypadMinus),
            0x57 => Some(Key::KeypadPlus),
            0x58 => Some(Key::KeypadEnter),
            0x59 => Some(Key::Keypad1),
            0x5A => Some(Key::Keypad2),
            0x5B => Some(Key::Keypad3),
            0x5C => Some(Key::Keypad4),
            0x5D => Some(Key::Keypad5),
            0x5E => Some(Key::Keypad6),
            0x5F => Some(Key::Keypad7),
            0x60 => Some(Key::Keypad8),
            0x61 => Some(Key::Keypad9),
            0x62 => Some(Key::Keypad0),
            0x63 => Some(Key::KbPeriod),
            0x64 => Some(Key::NonUsBackslashPipe),
            0x65 => Some(Key::Application),
            0x66 => Some(Key::Power),
            0x67 => Some(Key::KpEqual),
            0x68 => Some(Key::F13),
            0x69 => Some(Key::F14),
            0x6A => Some(Key::F15),
            0x6B => Some(Key::F16),
            0x6C => Some(Key::F17),
            0x6D => Some(Key::F18),
            0x6E => Some(Key::F19),
            0x6F => Some(Key::F20),
            0x70 => Some(Key::F21),
            0x71 => Some(Key::F22),
            0x72 => Some(Key::F23),
            0x73 => Some(Key::F24),
            0x74 => Some(Key::Execute),
            0x75 => Some(Key::Help),
            0x76 => Some(Key::Menu),
            0x77 => Some(Key::Select),
            0x78 => Some(Key::Stop),
            0x79 => Some(Key::Again),
            0x7A => Some(Key::Undo),
            0x7B => Some(Key::Cut),
            0x7C => Some(Key::Copy),
            0x7D => Some(Key::Paste),
            0x7E => Some(Key::Find),
            0x7F => Some(Key::Mute),
            0x80 => Some(Key::VolumeUp),
            0x81 => Some(Key::VolumeDown),
            0x82 => Some(Key::LockingCapsLock),
            0x83 => Some(Key::LockingNumLock),
            0x84 => Some(Key::LockingScrollLock),
            0x85 => Some(Key::KpComma),
            0x86 => Some(Key::KpEqualSIgn),
            0x87 => Some(Key::International1),
            0x88 => Some(Key::International2),
            0x89 => Some(Key::International3),
            0x8A => Some(Key::International4),
            0x8B => Some(Key::International5),
            0x8C => Some(Key::International6),
            0x8D => Some(Key::International7),
            0x8E => Some(Key::International8),
            0x8F => Some(Key::International9),
            0x90 => Some(Key::Lang1),
            0x91 => Some(Key::Lang2),
            0x92 => Some(Key::Lang3),
            0x93 => Some(Key::Lang4),
            0x94 => Some(Key::Lang5),
            0x95 => Some(Key::Lang6),
            0x96 => Some(Key::Lang7),
            0x97 => Some(Key::Lang8),
            0x98 => Some(Key::Lang9),
            0x99 => Some(Key::AltErase),
            0x9A => Some(Key::SysReq),
            0x9B => Some(Key::Cancel),
            0x9C => Some(Key::Clear),
            0x9D => Some(Key::Prior),
            0x9E => Some(Key::Return2),
            0x9F => Some(Key::Separator),
            0xA0 => Some(Key::Out),
            0xA1 => Some(Key::Oper),
            0xA2 => Some(Key::ClearAgain),
            0xA3 => Some(Key::CrSel),
            0xA4 => Some(Key::ExSel),
            _ => None,
        }
    }

    /// The key with the given usage code, if there is one.
    pub fn from_code(code: u8) -> (k: Option<Key>)
        ensures
            k == Key::spec_from_code(code),
    {
        match code {
            0x04 => Some(Key::A),
            0x05 => Some(Key::B),
            0x06 => Some(Key::C),
            0x07 => Some(Key::D),
            0x08 => Some(Key::E),
            0x09 => Some(Key::F),
            0x0A => Some(Key::G),
            0x0B => Some(Key::H),
            0x0C => Some(Key::I),
            0x0D => Some(Key::J),
            0x0E => Some(Key::K),
            0x0F => Some(Key::L),
            0x10 => Some(Key::M),
            0x11 => Some(Key::N),
            0x12 => Some(Key::O),
            0x13 => Some(Key::P),
            0x14 => Some(Key::Q),
            0x15 => Some(Key::R),
            0x16 => Some(Key::S),
            0x17 => Some(Key::T),
            0x18 => Some(Key::U),
            0x19 => Some(Key::V),
            0x1A => Some(Key::W),
            0x1B => Some(Key::X),
            0x1C => Some(Key::Y),
            0x1D => Some(Key::Z),
            0x1E => Some(Key::D1),
            0x1F => Some(Key::D2),
            0x20 => Some(Key::D3),
            0x21 => Some(Key::D4),
            0x22 => Some(Key::D5),
            0x23 => Some(Key::D6),
            0x24 => Some(Key::D7),
            0x25 => Some(Key::D8),
            0x26 => Some(Key::D9),
            0x27 => Some(Key::D0),
            0x28 => Some(Key::Return),
            0x29 => Some(Key::Escape),
            0x2A => Some(Key::Backspace),
            0x2B => Some(Key::Tab),
            0x2C => Some(Key::Space),
            0x2D => Some(Key::Dash),
            0x2E => Some(Key::Equal),
            0x2F => Some(Key::LBracket),
            0x30 => Some(Key::RBracket),
            0x31 => Some(Key::BackslashPipe),
            0x32 => Some(Key::Pound),
            0x33 => Some(Key::Colon),
            0x34 => Some(Key::Apostrophe),
            0x35 => Some(Key::Accent),
            0x36 => Some(Key::Comma),
            0x37 => Some(Key::Period),
            0x38 => Some(Key::Slash),
            0x39 => Some(Key::CapsLock),
            0x3A => Some(Key::F1),
            0x3B => Some(Key::F2),
            0x3C => Some(Key::F3),
            0x3D => Some(Key::F4),
            0x3E => Some(Key::F5),
            0x3F => Some(Key::F6),
            0x40 => Some(Key::F7),
            0x41 => Some(Key::F8),
            0x42 => Some(Key::F9),
            0x43 => Some(Key::F10),
            0x44 => Some(Key::F11),
            0x45 => Some(Key::F12),
            0x46 => Some(Key::PrintScreen),
            0x47 => Some(Key::ScrollLock),
            0x48 => Some(Key::Pause),
            0x49 => Some(Key::Insert),
            0x4A => Some(Key::Home),
            0x4B => Some(Key::PageUp),
            0x4C => Some(Key::Delete),
            0x4D => Some(Key::End),
            0x4E => Some(Key::PageDown7),
            0x4F => Some(Key::RightArrow7),
            0x50 => Some(Key::LeftArrow7),
            0x51 => Some(Key::DownArrow7),
            0x52 => Some(Key::UpArrow7),
            0x53 => Some(Key::KeypadNumLock),
            0x54 => Some(Key::KeypadSlash),
            0x55 => Some(Key::KeypadAsterisk),
            0x56 => Some(Key::KeypadMinus),
            0x57 => Some(Key::KeypadPlus),
            0x58 => Some(Key::KeypadEnter),
            0x59 => Some(Key::Keypad1),
            0x5A => Some(Key::Keypad2),
            0x5B => Some(Key::Keypad3),
            0x5C => Some(Key::Keypad4),
            0x5D => Some(Key::Keypad5),
            0x5E => Some(Key::Keypad6),
            0x5F => Some(Key::Keypad7),
            0x60 => Some(Key::Keypad8),
            0x61 => Some(Key::Keypad9),
            0x62 => Some(Key::Keypad0),
            0x63 => Some(Key::KbPeriod),
            0x64 => Some(Key::NonUsBackslashPipe),
            0x65 => Some(Key::Application),
            0x66 => Some(Key::Power),
            0x67 => Some(Key::KpEqual),
            0x68 => Some(Key::F13),
            0x69 => Some(Key::F14),
            0x6A => Some(Key::F15),
            0x6B => Some(Key::F16),
            0x6C => Some(Key::F17),
            0x6D => Some(Key::F18),
            0x6E => Some(Key::F19),
            0x6F => Some(Key::F20),
            0x70 => Some(Key::F21),
            0x71 => Some(Key::F22),
            0x72 => Some(Key::F23),
            0x73 => Some(Key::F24),
            0x74 => Some(Key::Execute),
            0x75 => Some(Key::Help),
            0x76 => Some(Key::Menu),
            0x77 => Some(Key::Select),
            0x78 => Some(Key::Stop),
            0x79 => Some(Key::Again),
            0x7A => Some(Key::Undo),
            0x7B => Some(Key::Cut),
            0x7C => Some(Key::Copy),
            0x7D => Some(Key::Paste),
            0x7E => Some(Key::Find),
            0x7F => Some(Key::Mute),
            0x80 => Some(Key::VolumeUp),
            0x81 => Some(Key::VolumeDown),
            0x82 => Some(Key::LockingCapsLock),
            0x83 => Some(Key::LockingNumLock),
            0x84 => Some(Key::LockingScrollLock),
            0x85 => Some(Key::KpComma),
            0x86 => Some(Key::KpEqualSIgn),
            0x87 => Some(Key::International1),
            0x88 => Some(Key::International2),
            0x89 => Some(Key::International3),
            0x8A => Some(Key::International4),
            0x8B => Some(Key::International5),
            0x8C => Some(Key::International6),
            0x8D => Some(Key::International7),
            0x8E => Some(Key::International8),
            0x8F => Some(Key::International9),
            0x90 => Some(Key::Lang1),
            0x91 => Some(Key::Lang2),
            0x92 => Some(Key::Lang3),
            0x93 => Some(Key::Lang4),
            0x94 => Some(Key::Lang5),
            0x95 => Some(Key::Lang6),
            0x96 => Some(Key::Lang7),
            0x97 => Some(Key::Lang8),
            0x98 => Some(Key::Lang9),
            0x99 => Some(Key::AltErase),
            0x9A => Some(Key::SysReq),
            0x9B => Some(Key::Cancel),
            0x9C => Some(Key::Clear),
            0x9D => Some(Key::Prior),
            0x9E => Some(Key::Return2),
            0x9F => Some(Key::Separator),
            0xA0 => Some(Key::Out),
            0xA1 => Some(Key::Oper),
            0xA2 => Some(Key::ClearAgain),
            0xA3 => Some(Key::CrSel),
            0xA4 => Some(Key::ExSel),
            _ => None,
        }
    }
}

/// Every key's usage code lies between [MIN_KEY_CODE] and [MAX_KEY_CODE].
pub proof fn lemma_key_code_range(k: Key)
    ensures
        MIN_KEY_CODE <= k.spec_code() <= MAX_KEY_CODE,
{
}

/// A usage code names exactly one key: reading a key back from its code gives the key.
pub proof fn lemma_key_code_roundtrip(k: Key)
    ensures
        Key::spec_from_code(k.spec_code()) == Some(k),
{
}

/// Two keys with the same usage code are the same key.
pub proof fn lemma_key_code_injective(k1: Key, k2: Key)
    ensures
        k1.spec_code() == k2.spec_code() ==> k1 == k2,
{
    lemma_key_code_roundtrip(k1);
    lemma_key_code_roundtrip(k2);
}

impl From<Key> for u8 {
    fn from(key: Key) -> (r: u8) {
        key.code()
    }
}

impl vstd::std_specs::convert::FromSpecImpl<Key> for u8 {
    open spec fn obeys_from_spec() -> bool {
        true
    }

    open spec fn from_spec(key: Key) -> u8 {
        key.spec_code()
    }
}


/// Whether `s` is the name of a letter key: one upper case letter.
pub open spec fn is_letter_name(s: Seq<char>) -> bool {
    s.len() == 1 && 'A' <= s[0] <= 'Z'
}

/// Whether `c` is a decimal digit.
pub open spec fn is_digit(c: char) -> bool {
    '0' <= c <= '9'
}

/// Whether `s` is the letter `p` followed by one digit.
pub open spec fn is_digit_name(s: Seq<char>, p: char) -> bool {
    s.len() == 2 && s[0] == p && is_digit(s[1])
}

/// Whether `s` is the letter `p` followed by two digits.
pub open spec fn is_two_digit_name(s: Seq<char>, p: char) -> bool {
    s.len() == 3 && s[0] == p && is_digit(s[1]) && is_digit(s[2])
}

/// Whether `s` is `Keypad` followed by one digit.
pub open spec fn is_keypad_digit_name(s: Seq<char>) -> bool {
    &&& s.len() == 7
    &&& s[0] == 'K' && s[1] == 'e' && s[2] == 'y' && s[3] == 'p' && s[4] == 'a' && s[5] == 'd'
    &&& is_digit(s[6])
}

/// The value of a decimal digit.
pub open spec fn digit(c: char) -> int {
    c as int - '0' as int
}

/// The letter keys `A` to `Z` have the usages 0x04 to 0x1D, in alphabetical order.
pub proof fn law_letter_key_codes(k: Key)
    ensures
        ({
            let s = k.spec_name()@;
            is_letter_name(s) ==> k.spec_code() == 0x04 + (s[0] as int - 'A' as int)
        }),
{
    match k {
        Key::A => {
            reveal_strlit("A");
        },
        Key::B => {
            reveal_strlit("B");
        },
        Key::C => {
            reveal_strlit("C");
        },
        Key::D => {
            reveal_strlit("D");
        },
        Key::E => {
            reveal_strlit("E");
        },
        Key::F => {
            reveal_strlit("F");
        },
        Key::G => {
            reveal_strlit("G");
        },
        Key::H => {
            reveal_strlit("H");
        },
        Key::I => {
            reveal_strlit("I");
        },
        Key::J => {
            reveal_strlit("J");
        },
        Key::K => {
            reveal_strlit("K");
        },
        Key::L => {
            reveal_strlit("L");
        },
        Key::M => {
            reveal_strlit("M");
        },
        Key::N => {
            reveal_strlit("N");
        },
        Key::O => {
            reveal_strlit("O");
        },
        Key::P => {
            reveal_strlit("P");
        },
        Key::Q => {
            reveal_strlit("Q");
        },
        Key::R => {
            reveal_strlit("R");
        },
        Key::S => {
            reveal_strlit("S");
        },
        Key::T => {
            reveal_strlit("T");
        },
        Key::U => {
            reveal_strlit("U");
        },
        Key::V => {
            reveal_strlit("V");
        },
        Key::W => {
            reveal_strlit("W");
        },
        Key::X => {
            reveal_strlit("X");
        },
        Key::Y => {
            reveal_strlit("Y");
        },
        Key::Z => {
            reveal_strlit("Z");
        },
        Key::D1 => {
            reveal_strlit("D1");
        },
        Key::D2 => {
            reveal_strlit("D2");
        },
        Key::D3 => {
            reveal_strlit("D3");
        },
        Key::D4 => {
            reveal_strlit("D4");
        },
        Key::D5 => {
            reveal_strlit("D5");
        },
        Key::D6 => {
            reveal_strlit("D6");
        },
        Key::D7 => {
            reveal_strlit("D7");
        },
        Key::D8 => {
            reveal_strlit("D8");
        },
        Key::D9 => {
            reveal_strlit("D9");
        },
        Key::D0 => {
            reveal_strlit("D0");
        },
        Key::Return => {
            reveal_strlit("Return");
        },
        Key::Escape => {
            reveal_strlit("Escape");
        },
        Key::Backspace => {
            reveal_strlit("Backspace");
        },
        Key::Tab => {
            reveal_strlit("Tab");
        },
        Key::Space => {
            reveal_strlit("Space");
        },
        Key::Dash => {
            reveal_strlit("Dash");
        },
        Key::Equal => {
            reveal_strlit("Equal");
        },
        Key::LBracket => {
            reveal_strlit("LBracket");
        },
        Key::RBracket => {
            reveal_strlit("RBracket");
        },
        Key::BackslashPipe => {
            reveal_strlit("BackslashPipe");
        },
        Key::Pound => {
            reveal_strlit("Pound");
        },
        Key::Colon => {
            reveal_strlit("Colon");
        },
        Key::Apostrophe => {
            reveal_strlit("Apostrophe");
        },
        Key::Accent => {
            reveal_strlit("Accent");
        },
        Key::Comma => {
            reveal_strlit("Comma");
        },
        Key::Period => {
            reveal_strlit("Period");
        },
        Key::Slash => {
            reveal_strlit("Slash");
        },
        Key::CapsLock => {
            reveal_strlit("CapsLock");
        },
        Key::F1 => {
            reveal_strlit("F1");
        },
        Key::F2 => {
            reveal_strlit("F2");
        },
        Key::F3 => {
            reveal_strlit("F3");
        },
        Key::F4 => {
            reveal_strlit("F4");
        },
        Key::F5 => {
            reveal_strlit("F5");
        },
        Key::F6 => {
            reveal_strlit("F6");
        },
        Key::F7 => {
            reveal_strlit("F7");
        },
        Key::F8 => {
            reveal_strlit("F8");
        },
        Key::F9 => {
            reveal_strlit("F9");
        },
        Key::F10 => {
            reveal_strlit("F10");
        },
        Key::F11 => {
            reveal_strlit("F11");
        },
        Key::F12 => {
            reveal_strlit("F12");
        },
        Key::PrintScreen => {
            reveal_strlit("PrintScreen");
        },
        Key::ScrollLock => {
            reveal_strlit("ScrollLock");
        },
        Key::Pause => {
            reveal_strlit("Pause");
        },
        Key::Insert => {
            reveal_strlit("Insert");
        },
        Key::Home => {
            reveal_strlit("Home");
        },
        Key::PageUp => {
            reveal_strlit("PageUp");
        },
        Key::Delete => {
            reveal_strlit("Delete");
        },
        Key::End => {
            reveal_strlit("End");
        },
        Key::PageDown7 => {
            reveal_strlit("PageDown7");
        },
        Key::RightArrow7 => {
            reveal_strlit("RightArrow7");
        },
        Key::LeftArrow7 => {
            reveal_strlit("LeftArrow7");
        },
        Key::DownArrow7 => {
            reveal_strlit("DownArrow7");
        },
        Key::UpArrow7 => {
            reveal_strlit("UpArrow7");
        },
        Key::KeypadNumLock => {
            reveal_strlit("KeypadNumLock");
        },
        Key::KeypadSlash => {
            reveal_strlit("KeypadSlash");
        },
        Key::KeypadAsterisk => {
            reveal_strlit("KeypadAsterisk");
        },
        Key::KeypadMinus => {
            reveal_strlit("KeypadMinus");
        },
        Key::KeypadPlus => {
            reveal_strlit("KeypadPlus");
        },
        Key::KeypadEnter => {
            reveal_strlit("KeypadEnter");
        },
        Key::Keypad1 => {
            reveal_strlit("Keypad1");
        },
        Key::Keypad2 => {
            reveal_strlit("Keypad2");
        },
        Key::Keypad3 => {
            reveal_strlit("Keypad3");
        },
        Key::Keypad4 => {
            reveal_strlit("Keypad4");
        },
        Key::Keypad5 => {
            reveal_strlit("Keypad5");
        },
        Key::Keypad6 => {
            reveal_strlit("Keypad6");
        },
        Key::Keypad7 => {
            reveal_strlit("Keypad7");
        },
        Key::Keypad8 => {
            reveal_strlit("Keypad8");
        },
        Key::Keypad9 => {
            reveal_strlit("Keypad9");
        },
        Key::Keypad0 => {
            reveal_strlit("Keypad0");
        },
        Key::KbPeriod => {
            reveal_strlit("KbPeriod");
        },
        Key::NonUsBackslashPipe => {
            reveal_strlit("NonUsBackslashPipe");
        },
        Key::Application => {
            reveal_strlit("Application");
        },
        Key::Power => {
            reveal_strlit("Power");
        },
        Key::KpEqual => {
            reveal_strlit("KpEqual");
        },
        Key::F13 => {
            reveal_strlit("F13");
        },
        Key::F14 => {
            reveal_strlit("F14");
        },
        Key::F15 => {
            reveal_strlit("F15");
        },
        Key::F16 => {
            reveal_strlit("F16");
        },
        Key::F17 => {
            reveal_strlit("F17");
        },
        Key::F18 => {
            reveal_strlit("F18");
        },
        Key::F19 => {
            reveal_strlit("F19");
        },
        Key::F20 => {
            reveal_strlit("F20");
        },
        Key::F21 => {
            reveal_strlit("F21");
        },
        Key::F22 => {
            reveal_strlit("F22");
        },
        Key::F23 => {
            reveal_strlit("F23");
        },
        Key::F24 => {
            reveal_strlit("F24");
        },
        Key::Execute => {
            reveal_strlit("Execute");
        },
        Key::Help => {
            reveal_strlit("Help");
        },
        Key::Menu => {
            reveal_strlit("Menu");
        },
        Key::Select => {
            reveal_strlit("Select");
        },
        Key::Stop => {
            reveal_strlit("Stop");
        },
        Key::Again => {
            reveal_strlit("Again");
        },
        Key::Undo => {
            reveal_strlit("Undo");
        },
        Key::Cut => {
            reveal_strlit("Cut");
        },
        Key::Copy => {
            reveal_strlit("Copy");
        },
        Key::Paste => {
            reveal_strlit("Paste");
        },
        Key::Find => {
            reveal_strlit("Find");
        },
        Key::Mute => {
            reveal_strlit("Mute");
        },
        Key::VolumeUp => {
            reveal_strlit("VolumeUp");
        },
        Key::VolumeDown => {
            reveal_strlit("VolumeDown");
        },
        Key::LockingCapsLock => {
            reveal_strlit("LockingCapsLock");
        },
        Key::LockingNumLock => {
            reveal_strlit("LockingNumLock");
        },
        Key::LockingScrollLock => {
            reveal_strlit("LockingScrollLock");
        },
        Key::KpComma => {
            reveal_strlit("KpComma");
        },
        Key::KpEqualSIgn => {
            reveal_strlit("KpEqualSIgn");
        },
        Key::International1 => {
            reveal_strlit("International1");
        },
        Key::International2 => {
            reveal_strlit("International2");
        },
        Key::International3 => {
            reveal_strlit("International3");
        },
        Key::International4 => {
            reveal_strlit("International4");
        },
        Key::International5 => {
            reveal_strlit("International5");
        },
        Key::International6 => {
            reveal_strlit("International6");
        },
        Key::International7 => {
            reveal_strlit("International7");
        },
        Key::International8 => {
            reveal_strlit("International8");
        },
        Key::International9 => {
            reveal_strlit("International9");
        },
        Key::Lang1 => {
            reveal_strlit("Lang1");
        },
        Key::Lang2 => {
            reveal_strlit("Lang2");
        },
        Key::Lang3 => {
            reveal_strlit("Lang3");
        },
        Key::Lang4 => {
            reveal_strlit("Lang4");
        },
        Key::Lang5 => {
            reveal_strlit("Lang5");
        },
        Key::Lang6 => {
            reveal_strlit("Lang6");
        },
        Key::Lang7 => {
            reveal_strlit("Lang7");
        },
        Key::Lang8 => {
            reveal_strlit("Lang8");
        },
        Key::Lang9 => {
            reveal_strlit("Lang9");
        },
        Key::AltErase => {
            reveal_strlit("AltErase");
        },
        Key::SysReq => {
            reveal_strlit("SysReq");
        },
        Key::Cancel => {
            reveal_strlit("Cancel");
        },
        Key::Clear => {
            reveal_strlit("Clear");
        },
        Key::Prior => {
            reveal_strlit("Prior");
        },
        Key::Return2 => {
            reveal_strlit("Return2");
        },
        Key::Separator => {
            reveal_strlit("Separator");
        },
        Key::Out => {
            reveal_strlit("Out");
        },
        Key::Oper => {
            reveal_strlit("Oper");
        },
        Key::ClearAgain => {
            reveal_strlit("ClearAgain");
        },
        Key::CrSel => {
            reveal_strlit("CrSel");
        },
        Key::ExSel => {
            reveal_strlit("ExSel");
        },
    }
}

/// The digit keys `D1` to `D9` have the usages 0x1E to 0x26, and `D0` has 0x27.
pub proof fn law_digit_key_codes(k: Key)
    ensures
        ({
            let s = k.spec_name()@;
            is_digit_name(s, 'D') ==> k.spec_code() == if digit(s[1]) == 0 { 0x27 } else { 0x1D + digit(s[1]) }
        }),
{
    match k {
        Key::A => {
            reveal_strlit("A");
        },
        Key::B => {
            reveal_strlit("B");
        },
        Key::C => {
            reveal_strlit("C");
        },
        Key::D => {
            reveal_strlit("D");
        },
        Key::E => {
            reveal_strlit("E");
        },
        Key::F => {
            reveal_strlit("F");
        },
        Key::G => {
            reveal_strlit("G");
        },
        Key::H => {
            reveal_strlit("H");
        },
        Key::I => {
            reveal_strlit("I");
        },
        Key::J => {
            reveal_strlit("J");
        },
        Key::K => {
            reveal_strlit("K");
        },
        Key::L => {
            reveal_strlit("L");
        },
        Key::M => {
            reveal_strlit("M");
        },
        Key::N => {
            reveal_strlit("N");
        },
        Key::O => {
            reveal_strlit("O");
        },
        Key::P => {
            reveal_strlit("P");
        },
        Key::Q => {
            reveal_strlit("Q");
        },
        Key::R => {
            reveal_strlit("R");
        },
        Key::S => {
            reveal_strlit("S");
        },
        Key::T => {
            reveal_strlit("T");
        },
        Key::U => {
            reveal_strlit("U");
        },
        Key::V => {
            reveal_strlit("V");
        },
        Key::W => {
            reveal_strlit("W");
        },
        Key::X => {
            reveal_strlit("X");
        },
        Key::Y => {
            reveal_strlit("Y");
        },
        Key::Z => {
            reveal_strlit("Z");
        },
        Key::D1 => {
            reveal_strlit("D1");
        },
        Key::D2 => {
            reveal_strlit("D2");
        },
        Key::D3 => {
            reveal_strlit("D3");
        },
        Key::D4 => {
            reveal_strlit("D4");
        },
        Key::D5 => {
            reveal_strlit("D5");
        },
        Key::D6 => {
            reveal_strlit("D6");
        },
        Key::D7 => {
            reveal_strlit("D7");
        },
        Key::D8 => {
            reveal_strlit("D8");
        },
        Key::D9 => {
            reveal_strlit("D9");
        },
        Key::D0 => {
            reveal_strlit("D0");
        },
        Key::Return => {
            reveal_strlit("Return");
        },
        Key::Escape => {
            reveal_strlit("Escape");
        },
        Key::Backspace => {
            reveal_strlit("Backspace");
        },
        Key::Tab => {
            reveal_strlit("Tab");
        },
        Key::Space => {
            reveal_strlit("Space");
        },
        Key::Dash => {
            reveal_strlit("Dash");
        },
        Key::Equal => {
            reveal_strlit("Equal");
        },
        Key::LBracket => {
            reveal_strlit("LBracket");
        },
        Key::RBracket => {
            reveal_strlit("RBracket");
        },
        Key::BackslashPipe => {
            reveal_strlit("BackslashPipe");
        },
        Key::Pound => {
            reveal_strlit("Pound");
        },
        Key::Colon => {
            reveal_strlit("Colon");
        },
        Key::Apostrophe => {
            reveal_strlit("Apostrophe");
        },
        Key::Accent => {
            reveal_strlit("Accent");
        },
        Key::Comma => {
            reveal_strlit("Comma");
        },
        Key::Period => {
            reveal_strlit("Period");
        },
        Key::Slash => {
            reveal_strlit("Slash");
        },
        Key::CapsLock => {
            reveal_strlit("CapsLock");
        },
        Key::F1 => {
            reveal_strlit("F1");
        },
        Key::F2 => {
            reveal_strlit("F2");
        },
        Key::F3 => {
            reveal_strlit("F3");
        },
        Key::F4 => {
            reveal_strlit("F4");
        },
        Key::F5 => {
            reveal_strlit("F5");
        },
        Key::F6 => {
            reveal_strlit("F6");
        },
        Key::F7 => {
            reveal_strlit("F7");
        },
        Key::F8 => {
            reveal_strlit("F8");
        },
        Key::F9 => {
            reveal_strlit("F9");
        },
        Key::F10 => {
            reveal_strlit("F10");
        },
        Key::F11 => {
            reveal_strlit("F11");
        },
        Key::F12 => {
            reveal_strlit("F12");
        },
        Key::PrintScreen => {
            reveal_strlit("PrintScreen");
        },
        Key::ScrollLock => {
            reveal_strlit("ScrollLock");
        },
        Key::Pause => {
            reveal_strlit("Pause");
        },
        Key::Insert => {
            reveal_strlit("Insert");
        },
        Key::Home => {
            reveal_strlit("Home");
        },
        Key::PageUp => {
            reveal_strlit("PageUp");
        },
        Key::Delete => {
            reveal_strlit("Delete");
        },
        Key::End => {
            reveal_strlit("End");
        },
        Key::PageDown7 => {
            reveal_strlit("PageDown7");
        },
        Key::RightArrow7 => {
            reveal_strlit("RightArrow7");
        },
        Key::LeftArrow7 => {
            reveal_strlit("LeftArrow7");
        },
        Key::DownArrow7 => {
            reveal_strlit("DownArrow7");
        },
        Key::UpArrow7 => {
            reveal_strlit("UpArrow7");
        },
        Key::KeypadNumLock => {
            reveal_strlit("KeypadNumLock");
        },
        Key::KeypadSlash => {
            reveal_strlit("KeypadSlash");
        },
        Key::KeypadAsterisk => {
            reveal_strlit("KeypadAsterisk");
        },
        Key::KeypadMinus => {
            reveal_strlit("KeypadMinus");
        },
        Key::KeypadPlus => {
            reveal_strlit("KeypadPlus");
        },
        Key::KeypadEnter => {
            reveal_strlit("KeypadEnter");
        },
        Key::Keypad1 => {
            reveal_strlit("Keypad1");
        },
        Key::Keypad2 => {
            reveal_strlit("Keypad2");
        },
        Key::Keypad3 => {
            reveal_strlit("Keypad3");
        },
        Key::Keypad4 => {
            reveal_strlit("Keypad4");
        },
        Key::Keypad5 => {
            reveal_strlit("Keypad5");
        },
        Key::Keypad6 => {
            reveal_strlit("Keypad6");
        },
        Key::Keypad7 => {
            reveal_strlit("Keypad7");
        },
        Key::Keypad8 => {
            reveal_strlit("Keypad8");
        },
        Key::Keypad9 => {
            reveal_strlit("Keypad9");
        },
        Key::Keypad0 => {
            reveal_strlit("Keypad0");
        },
        Key::KbPeriod => {
            reveal_strlit("KbPeriod");
        },
        Key::NonUsBackslashPipe => {
            reveal_strlit("NonUsBackslashPipe");
        },
        Key::Application => {
            reveal_strlit("Application");
        },
        Key::Power => {
            reveal_strlit("Power");
        },
        Key::KpEqual => {
            reveal_strlit("KpEqual");
        },
        Key::F13 => {
            reveal_strlit("F13");
        },
        Key::F14 => {
            reveal_strlit("F14");
        },
        Key::F15 => {
            reveal_strlit("F15");
        },
        Key::F16 => {
            reveal_strlit("F16");
        },
        Key::F17 => {
            reveal_strlit("F17");
        },
        Key::F18 => {
            reveal_strlit("F18");
        },
        Key::F19 => {
            reveal_strlit("F19");
        },
        Key::F20 => {
            reveal_strlit("F20");
        },
        Key::F21 => {
            reveal_strlit("F21");
        },
        Key::F22 => {
            reveal_strlit("F22");
        },
        Key::F23 => {
            reveal_strlit("F23");
        },
        Key::F24 => {
            reveal_strlit("F24");
        },
        Key::Execute => {
            reveal_strlit("Execute");
        },
        Key::Help => {
            reveal_strlit("Help");
        },
        Key::Menu => {
            reveal_strlit("Menu");
        },
        Key::Select => {
            reveal_strlit("Select");
        },
        Key::Stop => {
            reveal_strlit("Stop");
        },
        Key::Again => {
            reveal_strlit("Again");
        },
        Key::Undo => {
            reveal_strlit("Undo");
        },
        Key::Cut => {
            reveal_strlit("Cut");
        },
        Key::Copy => {
            reveal_strlit("Copy");
        },
        Key::Paste => {
            reveal_strlit("Paste");
        },
        Key::Find => {
            reveal_strlit("Find");
        },
        Key::Mute => {
            reveal_strlit("Mute");
        },
        Key::VolumeUp => {
            reveal_strlit("VolumeUp");
        },
        Key::VolumeDown => {
            reveal_strlit("VolumeDown");
        },
        Key::LockingCapsLock => {
            reveal_strlit("LockingCapsLock");
        },
        Key::LockingNumLock => {
            reveal_strlit("LockingNumLock");
        },
        Key::LockingScrollLock => {
            reveal_strlit("LockingScrollLock");
        },
        Key::KpComma => {
            reveal_strlit("KpComma");
        },
        Key::KpEqualSIgn => {
            reveal_strlit("KpEqualSIgn");
        },
        Key::International1 => {
            reveal_strlit("International1");
        },
        Key::International2 => {
            reveal_strlit("International2");
        },
        Key::International3 => {
            reveal_strlit("International3");
        },
        Key::International4 => {
            reveal_strlit("International4");
        },
        Key::International5 => {
            reveal_strlit("International5");
        },
        Key::International6 => {
            reveal_strlit("International6");
        },
        Key::International7 => {
            reveal_strlit("International7");
        },
        Key::International8 => {
            reveal_strlit("International8");
        },
        Key::International9 => {
            reveal_strlit("International9");
        },
        Key::Lang1 => {
            reveal_strlit("Lang1");
        },
        Key::Lang2 => {
            reveal_strlit("Lang2");
        },
        Key::Lang3 => {
            reveal_strlit("Lang3");
        },
        Key::Lang4 => {
            reveal_strlit("Lang4");
        },
        Key::Lang5 => {
            reveal_strlit("Lang5");
        },
        Key::Lang6 => {
            reveal_strlit("Lang6");
        },
        Key::Lang7 => {
            reveal_strlit("Lang7");
        },
        Key::Lang8 => {
            reveal_strlit("Lang8");
        },
        Key::Lang9 => {
            reveal_strlit("Lang9");
        },
        Key::AltErase => {
            reveal_strlit("AltErase");
        },
        Key::SysReq => {
            reveal_strlit("SysReq");
        },
        Key::Cancel => {
            reveal_strlit("Cancel");
        },
        Key::Clear => {
            reveal_strlit("Clear");
        },
        Key::Prior => {
            reveal_strlit("Prior");
        },
        Key::Return2 => {
            reveal_strlit("Return2");
        },
        Key::Separator => {
            reveal_strlit("Separator");
        },
        Key::Out => {
            reveal_strlit("Out");
        },
        Key::Oper => {
            reveal_strlit("Oper");
        },
        Key::ClearAgain => {
            reveal_strlit("ClearAgain");
        },
        Key::CrSel => {
            reveal_strlit("CrSel");
        },
        Key::ExSel => {
            reveal_strlit("ExSel");
        },
    }
}

/// The function keys `F1` to `F12` have the usages 0x3A to 0x45, and `F13` to `F24` have
/// 0x68 to 0x73.
pub proof fn law_function_key_codes(k: Key)
    ensures
        ({
            let s = k.spec_name()@;
            &&& is_digit_name(s, 'F') && digit(s[1]) >= 1 ==> k.spec_code() == 0x39 + digit(s[1])
            &&& is_two_digit_name(s, 'F') && 10 <= 10 * digit(s[1]) + digit(s[2]) <= 12
                ==> k.spec_code() == 0x39 + 10 * digit(s[1]) + digit(s[2])
            &&& is_two_digit_name(s, 'F') && 13 <= 10 * digit(s[1]) + digit(s[2]) <= 24
                ==> k.spec_code() == 0x68 + (10 * digit(s[1]) + digit(s[2]) - 13)
        }),
{
    match k {
        Key::A => {
            reveal_strlit("A");
        },
        Key::B => {
            reveal_strlit("B");
        },
        Key::C => {
            reveal_strlit("C");
        },
        Key::D => {
            reveal_strlit("D");
        },
        Key::E => {
            reveal_strlit("E");
        },
        Key::F => {
            reveal_strlit("F");
        },
        Key::G => {
            reveal_strlit("G");
        },
        Key::H => {
            reveal_strlit("H");
        },
        Key::I => {
            reveal_strlit("I");
        },
        Key::J => {
            reveal_strlit("J");
        },
        Key::K => {
            reveal_strlit("K");
        },
        Key::L => {
            reveal_strlit("L");
        },
        Key::M => {
            reveal_strlit("M");
        },
        Key::N => {
            reveal_strlit("N");
        },
        Key::O => {
            reveal_strlit("O");
        },
        Key::P => {
            reveal_strlit("P");
        },
        Key::Q => {
            reveal_strlit("Q");
        },
        Key::R => {
            reveal_strlit("R");
        },
        Key::S => {
            reveal_strlit("S");
        },
        Key::T => {
            reveal_strlit("T");
        },
        Key::U => {
            reveal_strlit("U");
        },
        Key::V => {
            reveal_strlit("V");
        },
        Key::W => {
            reveal_strlit("W");
        },
        Key::X => {
            reveal_strlit("X");
        },
        Key::Y => {
            reveal_strlit("Y");
        },
        Key::Z => {
            reveal_strlit("Z");
        },
        Key::D1 => {
            reveal_strlit("D1");
        },
        Key::D2 => {
            reveal_strlit("D2");
        },
        Key::D3 => {
            reveal_strlit("D3");
        },
        Key::D4 => {
            reveal_strlit("D4");
        },
        Key::D5 => {
            reveal_strlit("D5");
        },
        Key::D6 => {
            reveal_strlit("D6");
        },
        Key::D7 => {
            reveal_strlit("D7");
        },
        Key::D8 => {
            reveal_strlit("D8");
        },
        Key::D9 => {
            reveal_strlit("D9");
        },
        Key::D0 => {
            reveal_strlit("D0");
        },
        Key::Return => {
            reveal_strlit("Return");
        },
        Key::Escape => {
            reveal_strlit("Escape");
        },
        Key::Backspace => {
            reveal_strlit("Backspace");
        },
        Key::Tab => {
            reveal_strlit("Tab");
        },
        Key::Space => {
            reveal_strlit("Space");
        },
        Key::Dash => {
            reveal_strlit("Dash");
        },
        Key::Equal => {
            reveal_strlit("Equal");
        },
        Key::LBracket => {
            reveal_strlit("LBracket");
        },
        Key::RBracket => {
            reveal_strlit("RBracket");
        },
        Key::BackslashPipe => {
            reveal_strlit("BackslashPipe");
        },
        Key::Pound => {
            reveal_strlit("Pound");
        },
        Key::Colon => {
            reveal_strlit("Colon");
        },
        Key::Apostrophe => {
            reveal_strlit("Apostrophe");
        },
        Key::Accent => {
            reveal_strlit("Accent");
        },
        Key::Comma => {
            reveal_strlit("Comma");
        },
        Key::Period => {
            reveal_strlit("Period");
        },
        Key::Slash => {
            reveal_strlit("Slash");
        },
        Key::CapsLock => {
            reveal_strlit("CapsLock");
        },
        Key::F1 => {
            reveal_strlit("F1");
        },
        Key::F2 => {
            reveal_strlit("F2");
        },
        Key::F3 => {
            reveal_strlit("F3");
        },
        Key::F4 => {
            reveal_strlit("F4");
        },
        Key::F5 => {
            reveal_strlit("F5");
        },
        Key::F6 => {
            reveal_strlit("F6");
        },
        Key::F7 => {
            reveal_strlit("F7");
        },
        Key::F8 => {
            reveal_strlit("F8");
        },
        Key::F9 => {
            reveal_strlit("F9");
        },
        Key::F10 => {
            reveal_strlit("F10");
        },
        Key::F11 => {
            reveal_strlit("F11");
        },
        Key::F12 => {
            reveal_strlit("F12");
        },
        Key::PrintScreen => {
            reveal_strlit("PrintScreen");
        },
        Key::ScrollLock => {
            reveal_strlit("ScrollLock");
        },
        Key::Pause => {
            reveal_strlit("Pause");
        },
        Key::Insert => {
            reveal_strlit("Insert");
        },
        Key::Home => {
            reveal_strlit("Home");
        },
        Key::PageUp => {
            reveal_strlit("PageUp");
        },
        Key::Delete => {
            reveal_strlit("Delete");
        },
        Key::End => {
            reveal_strlit("End");
        },
        Key::PageDown7 => {
            reveal_strlit("PageDown7");
        },
        Key::RightArrow7 => {
            reveal_strlit("RightArrow7");
        },
        Key::LeftArrow7 => {
            reveal_strlit("LeftArrow7");
        },
        Key::DownArrow7 => {
            reveal_strlit("DownArrow7");
        },
        Key::UpArrow7 => {
            reveal_strlit("UpArrow7");
        },
        Key::KeypadNumLock => {
            reveal_strlit("KeypadNumLock");
        },
        Key::KeypadSlash => {
            reveal_strlit("KeypadSlash");
        },
        Key::KeypadAsterisk => {
            reveal_strlit("KeypadAsterisk");
        },
        Key::KeypadMinus => {
            reveal_strlit("KeypadMinus");
        },
        Key::KeypadPlus => {
            reveal_strlit("KeypadPlus");
        },
        Key::KeypadEnter => {
            reveal_strlit("KeypadEnter");
        },
        Key::Keypad1 => {
            reveal_strlit("Keypad1");
        },
        Key::Keypad2 => {
            reveal_strlit("Keypad2");
        },
        Key::Keypad3 => {
            reveal_strlit("Keypad3");
        },
        Key::Keypad4 => {
            reveal_strlit("Keypad4");
        },
        Key::Keypad5 => {
            reveal_strlit("Keypad5");
        },
        Key::Keypad6 => {
            reveal_strlit("Keypad6");
        },
        Key::Keypad7 => {
            reveal_strlit("Keypad7");
        },
        Key::Keypad8 => {
            reveal_strlit("Keypad8");
        },
        Key::Keypad9 => {
            reveal_strlit("Keypad9");
        },
        Key::Keypad0 => {
            reveal_strlit("Keypad0");
        },
        Key::KbPeriod => {
            reveal_strlit("KbPeriod");
        },
        Key::NonUsBackslashPipe => {
            reveal_strlit("NonUsBackslashPipe");
        },
        Key::Application => {
            reveal_strlit("Application");
        },
        Key::Power => {
            reveal_strlit("Power");
        },
        Key::KpEqual => {
            reveal_strlit("KpEqual");
        },
        Key::F13 => {
            reveal_strlit("F13");
        },
        Key::F14 => {
            reveal_strlit("F14");
        },
        Key::F15 => {
            reveal_strlit("F15");
        },
        Key::F16 => {
            reveal_strlit("F16");
        },
        Key::F17 => {
            reveal_strlit("F17");
        },
        Key::F18 => {
            reveal_strlit("F18");
        },
        Key::F19 => {
            reveal_strlit("F19");
        },
        Key::F20 => {
            reveal_strlit("F20");
        },
        Key::F21 => {
            reveal_strlit("F21");
        },
        Key::F22 => {
            reveal_strlit("F22");
        },
        Key::F23 => {
            reveal_strlit("F23");
        },
        Key::F24 => {
            reveal_strlit("F24");
        },
        Key::Execute => {
            reveal_strlit("Execute");
        },
        Key::Help => {
            reveal_strlit("Help");
        },
        Key::Menu => {
            reveal_strlit("Menu");
        },
        Key::Select => {
            reveal_strlit("Select");
        },
        Key::Stop => {
            reveal_strlit("Stop");
        },
        Key::Again => {
            reveal_strlit("Again");
        },
        Key::Undo => {
            reveal_strlit("Undo");
        },
        Key::Cut => {
            reveal_strlit("Cut");
        },
        Key::Copy => {
            reveal_strlit("Copy");
        },
        Key::Paste => {
            reveal_strlit("Paste");
        },
        Key::Find => {
            reveal_strlit("Find");
        },
        Key::Mute => {
            reveal_strlit("Mute");
        },
        Key::VolumeUp => {
            reveal_strlit("VolumeUp");
        },
        Key::VolumeDown => {
            reveal_strlit("VolumeDown");
        },
        Key::LockingCapsLock => {
            reveal_strlit("LockingCapsLock");
        },
        Key::LockingNumLock => {
            reveal_strlit("LockingNumLock");
        },
        Key::LockingScrollLock => {
            reveal_strlit("LockingScrollLock");
        },
        Key::KpComma => {
            reveal_strlit("KpComma");
        },
        Key::KpEqualSIgn => {
            reveal_strlit("KpEqualSIgn");
        },
        Key::International1 => {
            reveal_strlit("International1");
        },
        Key::International2 => {
            reveal_strlit("International2");
        },
        Key::International3 => {
            reveal_strlit("International3");
        },
        Key::International4 => {
            reveal_strlit("International4");
        },
        Key::International5 => {
            reveal_strlit("International5");
        },
        Key::International6 => {
            reveal_strlit("International6");
        },
        Key::International7 => {
            reveal_strlit("International7");
        },
        Key::International8 => {
            reveal_strlit("International8");
        },
        Key::International9 => {
            reveal_strlit("International9");
        },
        Key::Lang1 => {
            reveal_strlit("Lang1");
        },
        Key::Lang2 => {
            reveal_strlit("Lang2");
        },
        Key::Lang3 => {
            reveal_strlit("Lang3");
        },
        Key::Lang4 => {
            reveal_strlit("Lang4");
        },
        Key::Lang5 => {
            reveal_strlit("Lang5");
        },
        Key::Lang6 => {
            reveal_strlit("Lang6");
        },
        Key::Lang7 => {
            reveal_strlit("Lang7");
        },
        Key::Lang8 => {
            reveal_strlit("Lang8");
        },
        Key::Lang9 => {
            reveal_strlit("Lang9");
        },
        Key::AltErase => {
            reveal_strlit("AltErase");
        },
        Key::SysReq => {
            reveal_strlit("SysReq");
        },
        Key::Cancel => {
            reveal_strlit("Cancel");
        },
        Key::Clear => {
            reveal_strlit("Clear");
        },
        Key::Prior => {
            reveal_strlit("Prior");
        },
        Key::Return2 => {
            reveal_strlit("Return2");
        },
        Key::Separator => {
            reveal_strlit("Separator");
        },
        Key::Out => {
            reveal_strlit("Out");
        },
        Key::Oper => {
            reveal_strlit("Oper");
        },
        Key::ClearAgain => {
            reveal_strlit("ClearAgain");
        },
        Key::CrSel => {
            reveal_strlit("CrSel");
        },
        Key::ExSel => {
            reveal_strlit("ExSel");
        },
    }
}

/// The keypad digits `Keypad1` to `Keypad9` have the usages 0x59 to 0x61, and `Keypad0`
/// has 0x62.
pub proof fn law_keypad_digit_codes(k: Key)
    ensures
        ({
            let s = k.spec_name()@;
            is_keypad_digit_name(s) ==> k.spec_code() == if digit(s[6]) == 0 { 0x62 } else { 0x58 + digit(s[6]) }
        }),
{
    match k {
        Key::A => {
            reveal_strlit("A");
        },
        Key::B => {
            reveal_strlit("B");
        },
        Key::C => {
            reveal_strlit("C");
        },
        Key::D => {
            reveal_strlit("D");
        },
        Key::E => {
            reveal_strlit("E");
        },
        Key::F => {
            reveal_strlit("F");
        },
        Key::G => {
            reveal_strlit("G");
        },
        Key::H => {
            reveal_strlit("H");
        },
        Key::I => {
            reveal_strlit("I");
        },
        Key::J => {
            reveal_strlit("J");
        },
        Key::K => {
            reveal_strlit("K");
        },
        Key::L => {
            reveal_strlit("L");
        },
        Key::M => {
            reveal_strlit("M");
        },
        Key::N => {
            reveal_strlit("N");
        },
        Key::O => {
            reveal_strlit("O");
        },
        Key::P => {
            reveal_strlit("P");
        },
        Key::Q => {
            reveal_strlit("Q");
        },
        Key::R => {
            reveal_strlit("R");
        },
        Key::S => {
            reveal_strlit("S");
        },
        Key::T => {
            reveal_strlit("T");
        },
        Key::U => {
            reveal_strlit("U");
        },
        Key::V => {
            reveal_strlit("V");
        },
        Key::W => {
            reveal_strlit("W");
        },
        Key::X => {
            reveal_strlit("X");
        },
        Key::Y => {
            reveal_strlit("Y");
        },
        Key::Z => {
            reveal_strlit("Z");
        },
        Key::D1 => {
            reveal_strlit("D1");
        },
        Key::D2 => {
            reveal_strlit("D2");
        },
        Key::D3 => {
            reveal_strlit("D3");
        },
        Key::D4 => {
            reveal_strlit("D4");
        },
        Key::D5 => {
            reveal_strlit("D5");
        },
        Key::D6 => {
            reveal_strlit("D6");
        },
        Key::D7 => {
            reveal_strlit("D7");
        },
        Key::D8 => {
            reveal_strlit("D8");
        },
        Key::D9 => {
            reveal_strlit("D9");
        },
        Key::D0 => {
            reveal_strlit("D0");
        },
        Key::Return => {
            reveal_strlit("Return");
        },
        Key::Escape => {
            reveal_strlit("Escape");
        },
        Key::Backspace => {
            reveal_strlit("Backspace");
        },
        Key::Tab => {
            reveal_strlit("Tab");
        },
        Key::Space => {
            reveal_strlit("Space");
        },
        Key::Dash => {
            reveal_strlit("Dash");
        },
        Key::Equal => {
            reveal_strlit("Equal");
        },
        Key::LBracket => {
            reveal_strlit("LBracket");
        },
        Key::RBracket => {
            reveal_strlit("RBracket");
        },
        Key::BackslashPipe => {
            reveal_strlit("BackslashPipe");
        },
        Key::Pound => {
            reveal_strlit("Pound");
        },
        Key::Colon => {
            reveal_strlit("Colon");
        },
        Key::Apostrophe => {
            reveal_strlit("Apostrophe");
        },
        Key::Accent => {
            reveal_strlit("Accent");
        },
        Key::Comma => {
            reveal_strlit("Comma");
        },
        Key::Period => {
            reveal_strlit("Period");
        },
        Key::Slash => {
            reveal_strlit("Slash");
        },
        Key::CapsLock => {
            reveal_strlit("CapsLock");
        },
        Key::F1 => {
            reveal_strlit("F1");
        },
        Key::F2 => {
            reveal_strlit("F2");
        },
        Key::F3 => {
            reveal_strlit("F3");
        },
        Key::F4 => {
            reveal_strlit("F4");
        },
        Key::F5 => {
            reveal_strlit("F5");
        },
        Key::F6 => {
            reveal_strlit("F6");
        },
        Key::F7 => {
            reveal_strlit("F7");
        },
        Key::F8 => {
            reveal_strlit("F8");
        },
        Key::F9 => {
            reveal_strlit("F9");
        },
        Key::F10 => {
            reveal_strlit("F10");
        },
        Key::F11 => {
            reveal_strlit("F11");
        },
        Key::F12 => {
            reveal_strlit("F12");
        },
        Key::PrintScreen => {
            reveal_strlit("PrintScreen");
        },
        Key::ScrollLock => {
            reveal_strlit("ScrollLock");
        },
        Key::Pause => {
            reveal_strlit("Pause");
        },
        Key::Insert => {
            reveal_strlit("Insert");
        },
        Key::Home => {
            reveal_strlit("Home");
        },
        Key::PageUp => {
            reveal_strlit("PageUp");
        },
        Key::Delete => {
            reveal_strlit("Delete");
        },
        Key::End => {
            reveal_strlit("End");
        },
        Key::PageDown7 => {
            reveal_strlit("PageDown7");
        },
        Key::RightArrow7 => {
            reveal_strlit("RightArrow7");
        },
        Key::LeftArrow7 => {
            reveal_strlit("LeftArrow7");
        },
        Key::DownArrow7 => {
            reveal_strlit("DownArrow7");
        },
        Key::UpArrow7 => {
            reveal_strlit("UpArrow7");
        },
        Key::KeypadNumLock => {
            reveal_strlit("KeypadNumLock");
        },
        Key::KeypadSlash => {
            reveal_strlit("KeypadSlash");
        },
        Key::KeypadAsterisk => {
            reveal_strlit("KeypadAsterisk");
        },
        Key::KeypadMinus => {
            reveal_strlit("KeypadMinus");
        },
        Key::KeypadPlus => {
            reveal_strlit("KeypadPlus");
        },
        Key::KeypadEnter => {
            reveal_strlit("KeypadEnter");
        },
        Key::Keypad1 => {
            reveal_strlit("Keypad1");
        },
        Key::Keypad2 => {
            reveal_strlit("Keypad2");
        },
        Key::Keypad3 => {
            reveal_strlit("Keypad3");
        },
        Key::Keypad4 => {
            reveal_strlit("Keypad4");
        },
        Key::Keypad5 => {
            reveal_strlit("Keypad5");
        },
        Key::Keypad6 => {
            reveal_strlit("Keypad6");
        },
        Key::Keypad7 => {
            reveal_strlit("Keypad7");
        },
        Key::Keypad8 => {
            reveal_strlit("Keypad8");
        },
        Key::Keypad9 => {
            reveal_strlit("Keypad9");
        },
        Key::Keypad0 => {
            reveal_strlit("Keypad0");
        },
        Key::KbPeriod => {
            reveal_strlit("KbPeriod");
        },
        Key::NonUsBackslashPipe => {
            reveal_strlit("NonUsBackslashPipe");
        },
        Key::Application => {
            reveal_strlit("Application");
        },
        Key::Power => {
            reveal_strlit("Power");
        },
        Key::KpEqual => {
            reveal_strlit("KpEqual");
        },
        Key::F13 => {
            reveal_strlit("F13");
        },
        Key::F14 => {
            reveal_strlit("F14");
        },
        Key::F15 => {
            reveal_strlit("F15");
        },
        Key::F16 => {
            reveal_strlit("F16");
        },
        Key::F17 => {
            reveal_strlit("F17");
        },
        Key::F18 => {
            reveal_strlit("F18");
        },
        Key::F19 => {
            reveal_strlit("F19");
        },
        Key::F20 => {
            reveal_strlit("F20");
        },
        Key::F21 => {
            reveal_strlit("F21");
        },
        Key::F22 => {
            reveal_strlit("F22");
        },
        Key::F23 => {
            reveal_strlit("F23");
        },
        Key::F24 => {
            reveal_strlit("F24");
        },
        Key::Execute => {
            reveal_strlit("Execute");
        },
        Key::Help => {
            reveal_strlit("Help");
        },
        Key::Menu => {
            reveal_strlit("Menu");
        },
        Key::Select => {
            reveal_strlit("Select");
        },
        Key::Stop => {
            reveal_strlit("Stop");
        },
        Key::Again => {
            reveal_strlit("Again");
        },
        Key::Undo => {
            reveal_strlit("Undo");
        },
        Key::Cut => {
            reveal_strlit("Cut");
        },
        Key::Copy => {
            reveal_strlit("Copy");
        },
        Key::Paste => {
            reveal_strlit("Paste");
        },
        Key::Find => {
            reveal_strlit("Find");
        },
        Key::Mute => {
            reveal_strlit("Mute");
        },
        Key::VolumeUp => {
            reveal_strlit("VolumeUp");
        },
        Key::VolumeDown => {
            reveal_strlit("VolumeDown");
        },
        Key::LockingCapsLock => {
            reveal_strlit("LockingCapsLock");
        },
        Key::LockingNumLock => {
            reveal_strlit("LockingNumLock");
        },
        Key::LockingScrollLock => {
            reveal_strlit("LockingScrollLock");
        },
        Key::KpComma => {
            reveal_strlit("KpComma");
        },
        Key::KpEqualSIgn => {
            reveal_strlit("KpEqualSIgn");
        },
        Key::International1 => {
            reveal_strlit("International1");
        },
        Key::International2 => {
            reveal_strlit("International2");
        },
        Key::International3 => {
            reveal_strlit("International3");
        },
        Key::International4 => {
            reveal_strlit("International4");
        },
        Key::International5 => {
            reveal_strlit("International5");
        },
        Key::International6 => {
            reveal_strlit("International6");
        },
        Key::International7 => {
            reveal_strlit("International7");
        },
        Key::International8 => {
            reveal_strlit("International8");
        },
        Key::International9 => {
            reveal_strlit("International9");
        },
        Key::Lang1 => {
            reveal_strlit("Lang1");
        },
        Key::Lang2 => {
            reveal_strlit("Lang2");
        },
        Key::Lang3 => {
            reveal_strlit("Lang3");
        },
        Key::Lang4 => {
            reveal_strlit("Lang4");
        },
        Key::Lang5 => {
            reveal_strlit("Lang5");
        },
        Key::Lang6 => {
            reveal_strlit("Lang6");
        },
        Key::Lang7 => {
            reveal_strlit("Lang7");
        },
        Key::Lang8 => {
            reveal_strlit("Lang8");
        },
        Key::Lang9 => {
            reveal_strlit("Lang9");
        },
        Key::AltErase => {
            reveal_strlit("AltErase");
        },
        Key::SysReq => {
            reveal_strlit("SysReq");
        },
        Key::Cancel => {
            reveal_strlit("Cancel");
        },
        Key::Clear => {
            reveal_strlit("Clear");
        },
        Key::Prior => {
            reveal_strlit("Prior");
        },
        Key::Return2 => {
            reveal_strlit("Return2");
        },
        Key::Separator => {
            reveal_strlit("Separator");
        },
        Key::Out => {
            reveal_strlit("Out");
        },
        Key::Oper => {
            reveal_strlit("Oper");
        },
        Key::ClearAgain => {
            reveal_strlit("ClearAgain");
        },
        Key::CrSel => {
            reveal_strlit("CrSel");
        },
        Key::ExSel => {
            reveal_strlit("ExSel");
        },
    }
}

} // verus!
