//! Scan code set 1: the keys, their codes, and the characters they type.

use vstd::prelude::*;
use super::KeyModifiers;

verus! {

/// The keys of scan code set 1, in the order of their codes from 0x00 to
/// 0x58. The four whose names begin with an underscore stand for codes
/// that no key sends.
#[allow(non_camel_case_types)]
#[derive(Clone, Copy, Debug, PartialEq, Eq, Structural)]
pub enum Key {
    _Unknown,
    Escape,
    Num1,
    Num2,
    Num3,
    Num4,
    Num5,
    Num6,
    Num7,
    Num8,
    Num9,
    Num0,
    Minus,
    EqualSign,
    Backspace,
    Tab,
    Q,
    W,
    E,
    R,
    T,
    Y,
    U,
    I,
    O,
    P,
    LeftBracket,
    RightBracket,
    Enter,
    Ctrl,
    A,
    S,
    D,
    F,
    G,
    H,
    J,
    K,
    L,
    Semicolon,
    SingleQuote,
    Backtick,
    LeftShift,
    BackSlash,
    Z,
    X,
    C,
    V,
    B,
    N,
    M,
    Comma,
    Period,
    Slash,
    RightShift,
    PadStar,
    Alt,
    Space,
    CapsLock,
    F1,
    F2,
    F3,
    F4,
    F5,
    F6,
    F7,
    F8,
    F9,
    F10,
    NumLock,
    ScrollLock,
    Pad7,
    Pad8,
    Pad9,
    PadMinus,
    Pad4,
    Pad5,
    Pad6,
    PadPlus,
    Pad1,
    Pad2,
    Pad3,
    Pad0,
    PadPeriod,
    _Unknown1,
    _Unknown2,
    _Unknown3,
    F11,
    F12,
}

/// Highest code of a key.
pub const MAX_KEY_CODE: u8 = 0x58;

/// The character that each key types with no modifier, by code; zero
/// where it types none.
pub const ASCII_KEY_MAP: [u8; 89] = [
    0x00, 0x1b, 0x31, 0x32, 0x33, 0x34, 0x35, 0x36,
    0x37, 0x38, 0x39, 0x30, 0x2d, 0x3d, 0x08, 0x09,
    0x71, 0x77, 0x65, 0x72, 0x74, 0x79, 0x75, 0x69,
    0x6f, 0x70, 0x5b, 0x5d, 0x0a, 0x00, 0x61, 0x73,
    0x64, 0x66, 0x67, 0x68, 0x6a, 0x6b, 0x6c, 0x3b,
    0x27, 0x60, 0x00, 0x5c, 0x7a, 0x78, 0x63, 0x76,
    0x62, 0x6e, 0x6d, 0x2c, 0x2e, 0x2f, 0x00, 0x2a,
    0x00, 0x20, 0x00, 0x00, 0x00, 0x00, 0x00, 0x00,
    0x00, 0x00, 0x00, 0x00, 0x00, 0x00, 0x00, 0x37,
    0x38, 0x39, 0x2d, 0x34, 0x35, 0x36, 0x2b, 0x31,
    0x32, 0x33, 0x30, 0x2e, 0x00, 0x00, 0x00, 0x00,
    0x00,
];

/// The character that each key types while shifted, by code; zero where
/// it types none.
pub const ASCII_SHIFT_KEY_MAP: [u8; 89] = [
    0x00, 0x00, 0x21, 0x40, 0x23, 0x24, 0x25, 0x5e,
    0x26, 0x2a, 0x28, 0x29, 0x5f, 0x2b, 0x00, 0x00,
    0x51, 0x57, 0x45, 0x52, 0x54, 0x59, 0x55, 0x49,
    0x4f, 0x50, 0x7b, 0x7d, 0x00, 0x00, 0x41, 0x53,
    0x44, 0x46, 0x47, 0x48, 0x4a, 0x4b, 0x4c, 0x3a,
    0x22, 0x7e, 0x00, 0x7c, 0x5a, 0x58, 0x43, 0x56,
    0x42, 0x4e, 0x4d, 0x3c, 0x3e, 0x3f, 0x00, 0x00,
    0x00, 0x00, 0x00, 0x00, 0x00, 0x00, 0x00, 0x00,
    0x00, 0x00, 0x00, 0x00, 0x00, 0x00, 0x00, 0x00,
    0x00, 0x00, 0x00, 0x00, 0x00, 0x00, 0x00, 0x00,
    0x00, 0x00, 0x00, 0x00, 0x00, 0x00, 0x00, 0x00,
    0x00,
];

/// The code of a key.
pub open spec fn key_code(key: Key) -> u8 {
    match key {
        Key::_Unknown => 0x00,
        Key::Escape => 0x01,
        Key::Num1 => 0x02,
        Key::Num2 => 0x03,
        Key::Num3 => 0x04,
        Key::Num4 => 0x05,
        Key::Num5 => 0x06,
        Key::Num6 => 0x07,
        Key::Num7 => 0x08,
        Key::Num8 => 0x09,
        Key::Num9 => 0x0a,
        Key::Num0 => 0x0b,
        Key::Minus => 0x0c,
        Key::EqualSign => 0x0d,
        Key::Backspace => 0x0e,
        Key::Tab => 0x0f,
        Key::Q => 0x10,
        Key::W => 0x11,
        Key::E => 0x12,
        Key::R => 0x13,
        Key::T => 0x14,
        Key::Y => 0x15,
        Key::U => 0x16,
        Key::I => 0x17,
        Key::O => 0x18,
        Key::P => 0x19,
        Key::LeftBracket => 0x1a,
        Key::RightBracket => 0x1b,
        Key::Enter => 0x1c,
        Key::Ctrl => 0x1d,
        Key::A => 0x1e,
        Key::S => 0x1f,
        Key::D => 0x20,
        Key::F => 0x21,
        Key::G => 0x22,
        Key::H => 0x23,
        Key::J => 0x24,
        Key::K => 0x25,
        Key::L => 0x26,
        Key::Semicolon => 0x27,
        Key::SingleQuote => 0x28,
        Key::Backtick => 0x29,
        Key::LeftShift => 0x2a,
        Key::BackSlash => 0x2b,
        Key::Z => 0x2c,
        Key::X => 0x2d,
        Key::C => 0x2e,
        Key::V => 0x2f,
        Key::B => 0x30,
        Key::N => 0x31,
        Key::M => 0x32,
        Key::Comma => 0x33,
        Key::Period => 0x34,
        Key::Slash => 0x35,
        Key::RightShift => 0x36,
        Key::PadStar => 0x37,
        Key::Alt => 0x38,
        Key::Space => 0x39,
        Key::CapsLock => 0x3a,
        Key::F1 => 0x3b,
        Key::F2 => 0x3c,
        Key::F3 => 0x3d,
        Key::F4 => 0x3e,
        Key::F5 => 0x3f,
        Key::F6 => 0x40,
        Key::F7 => 0x41,
        Key::F8 => 0x42,
        Key::F9 => 0x43,
        Key::F10 => 0x44,
        Key::NumLock => 0x45,
        Key::ScrollLock => 0x46,
        Key::Pad7 => 0x47,
        Key::Pad8 => 0x48,
        Key::Pad9 => 0x49,
        Key::PadMinus => 0x4a,
        Key::Pad4 => 0x4b,
        Key::Pad5 => 0x4c,
        Key::Pad6 => 0x4d,
        Key::PadPlus => 0x4e,
        Key::Pad1 => 0x4f,
        Key::Pad2 => 0x50,
        Key::Pad3 => 0x51,
        Key::Pad0 => 0x52,
        Key::PadPeriod => 0x53,
        Key::_Unknown1 => 0x54,
        Key::_Unknown2 => 0x55,
        Key::_Unknown3 => 0x56,
        Key::F11 => 0x57,
        Key::F12 => 0x58,
    }
}

/// The key that has `code`; the key of code 0 where none has.
pub open spec fn key_of_code(code: u8) -> Key {
    match code {
        0x01 => Key::Escape,
        0x02 => Key::Num1,
        0x03 => Key::Num2,
        0x04 => Key::Num3,
        0x05 => Key::Num4,
        0x06 => Key::Num5,
        0x07 => Key::Num6,
        0x08 => Key::Num7,
        0x09 => Key::Num8,
        0x0a => Key::Num9,
        0x0b => Key::Num0,
        0x0c => Key::Minus,
        0x0d => Key::EqualSign,
        0x0e => Key::Backspace,
        0x0f => Key::Tab,
        0x10 => Key::Q,
        0x11 => Key::W,
        0x12 => Key::E,
        0x13 => Key::R,
        0x14 => Key::T,
        0x15 => Key::Y,
        0x16 => Key::U,
        0x17 => Key::I,
        0x18 => Key::O,
        0x19 => Key::P,
        0x1a => Key::LeftBracket,
        0x1b => Key::RightBracket,
        0x1c => Key::Enter,
        0x1d => Key::Ctrl,
        0x1e => Key::A,
        0x1f => Key::S,
        0x20 => Key::D,
        0x21 => Key::F,
        0x22 => Key::G,
        0x23 => Key::H,
        0x24 => Key::J,
        0x25 => Key::K,
        0x26 => Key::L,
        0x27 => Key::Semicolon,
        0x28 => Key::SingleQuote,
        0x29 => Key::Backtick,
        0x2a => Key::LeftShift,
        0x2b => Key::BackSlash,
        0x2c => Key::Z,
        0x2d => Key::X,
        0x2e => Key::C,
        0x2f => Key::V,
        0x30 => Key::B,
        0x31 => Key::N,
        0x32 => Key::M,
        0x33 => Key::Comma,
        0x34 => Key::Period,
        0x35 => Key::Slash,
        0x36 => Key::RightShift,
        0x37 => Key::PadStar,
        0x38 => Key::Alt,
        0x39 => Key::Space,
        0x3a => Key::CapsLock,
        0x3b => Key::F1,
        0x3c => Key::F2,
        0x3d => Key::F3,
        0x3e => Key::F4,
        0x3f => Key::F5,
        0x40 => Key::F6,
        0x41 => Key::F7,
        0x42 => Key::F8,
        0x43 => Key::F9,
        0x44 => Key::F10,
        0x45 => Key::NumLock,
        0x46 => Key::ScrollLock,
        0x47 => Key::Pad7,
        0x48 => Key::Pad8,
        0x49 => Key::Pad9,
        0x4a => Key::PadMinus,
        0x4b => Key::Pad4,
        0x4c => Key::Pad5,
        0x4d => Key::Pad6,
        0x4e => Key::PadPlus,
        0x4f => Key::Pad1,
        0x50 => Key::Pad2,
        0x51 => Key::Pad3,
        0x52 => Key::Pad0,
        0x53 => Key::PadPeriod,
        0x54 => Key::_Unknown1,
        0x55 => Key::_Unknown2,
        0x56 => Key::_Unknown3,
        0x57 => Key::F11,
        0x58 => Key::F12,
        _ => Key::_Unknown,
    }
}

/// Whether a key sends `code`: every code from 0x01 to 0x58 but 0x54,
/// 0x55 and 0x56.
pub open spec fn is_key_code(code: u8) -> bool {
    1 <= code <= MAX_KEY_CODE && code != 0x54 && code != 0x55 && code != 0x56
}

/// Whether the key is one of the 26 letters.
pub open spec fn key_is_letter(key: Key) -> bool {
    matches!(key, Key::A | Key::B | Key::C | Key::D | Key::E | Key::F | Key::G | Key::H | Key::I | Key::J | Key::K | Key::L | Key::M | Key::N | Key::O | Key::P | Key::Q | Key::R | Key::S | Key::T | Key::U | Key::V | Key::W | Key::X | Key::Y | Key::Z)
}

/// The character that a key types under the given modifiers: none where
/// the table has a zero. The shifted table is read while a shift key is
/// held, and for letters also while caps lock is on.
pub open spec fn key_ascii(key: Key, modifiers: KeyModifiers) -> Option<char> {
    let shifted = modifiers.shift_held() || (modifiers.caps_locked() && key_is_letter(key));
    let byte = if shifted {
        ASCII_SHIFT_KEY_MAP@[key_code(key) as int]
    } else {
        ASCII_KEY_MAP@[key_code(key) as int]
    };
    if byte == 0 {
        None
    } else {
        Some(byte as char)
    }
}

impl Key {
    /// The code of the key.
    pub fn code(self) -> (res: u8)
        ensures
            res == key_code(self),
            res <= MAX_KEY_CODE,
    {
        match self {
            Key::_Unknown => 0x00,
            Key::Escape => 0x01,
            Key::Num1 => 0x02,
            Key::Num2 => 0x03,
            Key::Num3 => 0x04,
            Key::Num4 => 0x05,
            Key::Num5 => 0x06,
            Key::Num6 => 0x07,
            Key::Num7 => 0x08,
            Key::Num8 => 0x09,
            Key::Num9 => 0x0a,
            Key::Num0 => 0x0b,
            Key::Minus => 0x0c,
            Key::EqualSign => 0x0d,
            Key::Backspace => 0x0e,
            Key::Tab => 0x0f,
            Key::Q => 0x10,
            Key::W => 0x11,
            Key::E => 0x12,
            Key::R => 0x13,
            Key::T => 0x14,
            Key::Y => 0x15,
            Key::U => 0x16,
            Key::I => 0x17,
            Key::O => 0x18,
            Key::P => 0x19,
            Key::LeftBracket => 0x1a,
            Key::RightBracket => 0x1b,
            Key::Enter => 0x1c,
            Key::Ctrl => 0x1d,
            Key::A => 0x1e,
            Key::S => 0x1f,
            Key::D => 0x20,
            Key::F => 0x21,
            Key::G => 0x22,
            Key::H => 0x23,
            Key::J => 0x24,
            Key::K => 0x25,
            Key::L => 0x26,
            Key::Semicolon => 0x27,
            Key::SingleQuote => 0x28,
            Key::Backtick => 0x29,
            Key::LeftShift => 0x2a,
            Key::BackSlash => 0x2b,
            Key::Z => 0x2c,
            Key::X => 0x2d,
            Key::C => 0x2e,
            Key::V => 0x2f,
            Key::B => 0x30,
            Key::N => 0x31,
            Key::M => 0x32,
            Key::Comma => 0x33,
            Key::Period => 0x34,
            Key::Slash => 0x35,
            Key::RightShift => 0x36,
            Key::PadStar => 0x37,
            Key::Alt => 0x38,
            Key::Space => 0x39,
            Key::CapsLock => 0x3a,
            Key::F1 => 0x3b,
            Key::F2 => 0x3c,
            Key::F3 => 0x3d,
            Key::F4 => 0x3e,
            Key::F5 => 0x3f,
            Key::F6 => 0x40,
            Key::F7 => 0x41,
            Key::F8 => 0x42,
            Key::F9 => 0x43,
            Key::F10 => 0x44,
            Key::NumLock => 0x45,
            Key::ScrollLock => 0x46,
            Key::Pad7 => 0x47,
            Key::Pad8 => 0x48,
            Key::Pad9 => 0x49,
            Key::PadMinus => 0x4a,
            Key::Pad4 => 0x4b,
            Key::Pad5 => 0x4c,
            Key::Pad6 => 0x4d,
            Key::PadPlus => 0x4e,
            Key::Pad1 => 0x4f,
            Key::Pad2 => 0x50,
            Key::Pad3 => 0x51,
            Key::Pad0 => 0x52,
            Key::PadPeriod => 0x53,
            Key::_Unknown1 => 0x54,
            Key::_Unknown2 => 0x55,
            Key::_Unknown3 => 0x56,
            Key::F11 => 0x57,
            Key::F12 => 0x58,
        }
    }

    /// The key that sends `scan_code`, if one does.
    pub fn from_code(scan_code: u8) -> (res: Option<Self>)
        ensures
            res == (if is_key_code(scan_code) {
                Some(key_of_code(scan_code))
            } else {
                None
            }),
    {
        match scan_code {
            0x01 => Some(Key::Escape),
            0x02 => Some(Key::Num1),
            0x03 => Some(Key::Num2),
            0x04 => Some(Key::Num3),
            0x05 => Some(Key::Num4),
            0x06 => Some(Key::Num5),
            0x07 => Some(Key::Num6),
            0x08 => Some(Key::Num7),
            0x09 => Some(Key::Num8),
            0x0a => Some(Key::Num9),
            0x0b => Some(Key::Num0),
            0x0c => Some(Key::Minus),
            0x0d => Some(Key::EqualSign),
            0x0e => Some(Key::Backspace),
            0x0f => Some(Key::Tab),
            0x10 => Some(Key::Q),
            0x11 => Some(Key::W),
            0x12 => Some(Key::E),
            0x13 => Some(Key::R),
            0x14 => Some(Key::T),
            0x15 => Some(Key::Y),
            0x16 => Some(Key::U),
            0x17 => Some(Key::I),
            0x18 => Some(Key::O),
            0x19 => Some(Key::P),
            0x1a => Some(Key::LeftBracket),
            0x1b => Some(Key::RightBracket),
            0x1c => Some(Key::Enter),
            0x1d => Some(Key::Ctrl),
            0x1e => Some(Key::A),
            0x1f => Some(Key::S),
            0x20 => Some(Key::D),
            0x21 => Some(Key::F),
            0x22 => Some(Key::G),
            0x23 => Some(Key::H),
            0x24 => Some(Key::J),
            0x25 => Some(Key::K),
            0x26 => Some(Key::L),
            0x27 => Some(Key::Semicolon),
            0x28 => Some(Key::SingleQuote),
            0x29 => Some(Key::Backtick),
            0x2a => Some(Key::LeftShift),
            0x2b => Some(Key::BackSlash),
            0x2c => Some(Key::Z),
            0x2d => Some(Key::X),
            0x2e => Some(Key::C),
            0x2f => Some(Key::V),
            0x30 => Some(Key::B),
            0x31 => Some(Key::N),
            0x32 => Some(Key::M),
            0x33 => Some(Key::Comma),
            0x34 => Some(Key::Period),
            0x35 => Some(Key::Slash),
            0x36 => Some(Key::RightShift),
            0x37 => Some(Key::PadStar),
            0x38 => Some(Key::Alt),
            0x39 => Some(Key::Space),
            0x3a => Some(Key::CapsLock),
            0x3b => Some(Key::F1),
            0x3c => Some(Key::F2),
            0x3d => Some(Key::F3),
            0x3e => Some(Key::F4),
            0x3f => Some(Key::F5),
            0x40 => Some(Key::F6),
            0x41 => Some(Key::F7),
            0x42 => Some(Key::F8),
            0x43 => Some(Key::F9),
            0x44 => Some(Key::F10),
            0x45 => Some(Key::NumLock),
            0x46 => Some(Key::ScrollLock),
            0x47 => Some(Key::Pad7),
            0x48 => Some(Key::Pad8),
            0x49 => Some(Key::Pad9),
            0x4a => Some(Key::PadMinus),
            0x4b => Some(Key::Pad4),
            0x4c => Some(Key::Pad5),
            0x4d => Some(Key::Pad6),
            0x4e => Some(Key::PadPlus),
            0x4f => Some(Key::Pad1),
            0x50 => Some(Key::Pad2),
            0x51 => Some(Key::Pad3),
            0x52 => Some(Key::Pad0),
            0x53 => Some(Key::PadPeriod),
            0x57 => Some(Key::F11),
            0x58 => Some(Key::F12),
            _ => None,
        }
    }

    /// Whether the key is one of the 26 letters.
    pub fn is_letter(&self) -> (res: bool)
        ensures
            res == key_is_letter(*self),
    {
        matches!(self, Key::A | Key::B | Key::C | Key::D | Key::E | Key::F | Key::G | Key::H | Key::I | Key::J | Key::K | Key::L | Key::M | Key::N | Key::O | Key::P | Key::Q | Key::R | Key::S | Key::T | Key::U | Key::V | Key::W | Key::X | Key::Y | Key::Z)
    }

    /// The character that the key types under `modifiers`, if it types one.
    pub fn to_ascii(self, modifiers: KeyModifiers) -> (res: Option<char>)
        ensures
            res == key_ascii(self, modifiers),
    {
        let shifted = modifiers.shift() || (modifiers.caps_lock() && self.is_letter());
        let byte = if shifted {
            ASCII_SHIFT_KEY_MAP[self.code() as usize]
        } else {
            ASCII_KEY_MAP[self.code() as usize]
        };
        if byte == 0 {
            None
        } else {
            Some(byte as char)
        }
    }
}

/// What a scan code says: which key, and whether it went down (`true`) or
/// up. A code above 0x80 is the release of the key whose code is 0x80
/// less; any other is a press.
pub open spec fn decoded(scan_code: u8) -> Option<(Key, bool)> {
    let code = if scan_code > 0x80 {
        (scan_code - 0x80) as u8
    } else {
        scan_code
    };
    if is_key_code(code) {
        Some((key_of_code(code), scan_code <= 0x80))
    } else {
        None
    }
}

/// The key that `scan_code` is about, and whether it went down (`true`) or
/// up; `None` if no key sends the code.
pub fn decode_key(scan_code: u8) -> (res: Option<(Key, bool)>)
    ensures
        res == decoded(scan_code),
{
    let (code, pressed) = if scan_code > 0x80 {
        (scan_code - 0x80, false)
    } else {
        (scan_code, true)
    };
    match Key::from_code(code) {
        Some(key) => Some((key, pressed)),
        None => None,
    }
}

/// The key found for a code that a key sends has that code.
pub proof fn lemma_key_of_code(code: u8)
    requires
        is_key_code(code),
    ensures
        key_code(key_of_code(code)) == code,
{
}

/// No two keys share a code, so a code names its key.
pub proof fn lemma_key_code_injective(a: Key, b: Key)
    requires
        key_code(a) == key_code(b),
    ensures
        a == b,
{
}

} // verus!
