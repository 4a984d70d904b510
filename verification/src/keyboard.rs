//! The keyboard: modifier state and what a scan code does to it.

use vstd::prelude::*;

pub mod scan_set_1;

use scan_set_1::{Key, decode_key, decoded, key_ascii, key_code};

verus! {

/// Bit of the control key.
pub const CTRL: u16 = 0x001;
/// Bit of the left shift key.
pub const SHIFT_LEFT: u16 = 0x002;
/// Bit of the right shift key.
pub const SHIFT_RIGHT: u16 = 0x004;
/// Bit of the alt key.
pub const ALT: u16 = 0x008;
/// Bit of the alt gr key.
pub const ALT_GR: u16 = 0x010;
/// Bit of the left super key.
pub const SUPER_KEY_LEFT: u16 = 0x020;
/// Bit of the right super key.
pub const SUPER_KEY_RIGHT: u16 = 0x040;
/// Bit of caps lock.
pub const CAPS_LOCK: u16 = 0x080;
/// Bit of num lock.
pub const NUM_LOCK: u16 = 0x100;
/// Bit of scroll lock.
pub const SCROLL_LOCK: u16 = 0x200;

/// Whether any bit of `mask` is set in `bits`.
pub open spec fn any_set(bits: u16, mask: u16) -> bool {
    bits & mask > 0
}

/// The modifiers that are held or locked, one bit each.
#[derive(Clone, Copy, Debug, PartialEq, Eq, Structural)]
pub struct KeyModifiers(pub u16);

impl KeyModifiers {
    /// Whether either shift key is held.
    pub open spec fn shift_held(self) -> bool {
        any_set(self.0, SHIFT_LEFT | SHIFT_RIGHT)
    }

    /// Whether caps lock is on.
    pub open spec fn caps_locked(self) -> bool {
        any_set(self.0, CAPS_LOCK)
    }

    /// No modifier held or locked.
    pub fn empty() -> (res: Self)
        ensures
            res.0 == 0,
    {
        Self(0)
    }

    /// Whether the control key is held.
    pub fn ctrl(&self) -> (res: bool)
        ensures
            res == any_set(self.0, CTRL),
    {
        self.is_set(CTRL)
    }

    /// Whether either shift key is held.
    pub fn shift(&self) -> (res: bool)
        ensures
            res == self.shift_held(),
    {
        self.is_set(SHIFT_LEFT | SHIFT_RIGHT)
    }

    /// Whether the alt key is held.
    pub fn alt(&self) -> (res: bool)
        ensures
            res == any_set(self.0, ALT),
    {
        self.is_set(ALT)
    }

    /// Whether the alt gr key is held.
    pub fn alt_gr(&self) -> (res: bool)
        ensures
            res == any_set(self.0, ALT_GR),
    {
        self.is_set(ALT_GR)
    }

    /// Whether either super key is held.
    pub fn super_key(&self) -> (res: bool)
        ensures
            res == any_set(self.0, SUPER_KEY_LEFT | SUPER_KEY_RIGHT),
    {
        self.is_set(SUPER_KEY_LEFT | SUPER_KEY_RIGHT)
    }

    /// Whether caps lock is on.
    pub fn caps_lock(&self) -> (res: bool)
        ensures
            res == self.caps_locked(),
    {
        self.is_set(CAPS_LOCK)
    }

    /// Whether num lock is on.
    pub fn num_lock(&self) -> (res: bool)
        ensures
            res == any_set(self.0, NUM_LOCK),
    {
        self.is_set(NUM_LOCK)
    }

    /// Whether scroll lock is on.
    pub fn scroll_lock(&self) -> (res: bool)
        ensures
            res == any_set(self.0, SCROLL_LOCK),
    {
        self.is_set(SCROLL_LOCK)
    }

    /// Switches the bits of `modifier` on or off.
    pub fn set(&mut self, modifier: u16, set: bool)
        ensures
            final(self).0 == (if set {
                old(self).0 | modifier
            } else {
                old(self).0 & !modifier
            }),
    {
        if set {
            self.0 = self.0 | modifier;
        } else {
            self.0 = self.0 & !modifier;
        }
    }

    /// Flips the bits of `modifier`.
    pub fn toggle(&mut self, modifier: u16)
        ensures
            final(self).0 == old(self).0 ^ modifier,
    {
        self.0 = self.0 ^ modifier;
    }

    /// Whether any bit of `mask` is set.
    pub fn is_set(&self, mask: u16) -> (res: bool)
        ensures
            res == any_set(self.0, mask),
    {
        self.0 & mask > 0
    }
}

/// The modifier bits after `key` went down (`pressed`) or up. Alt, ctrl
/// and the two shift keys are on exactly while they are held; num lock,
/// caps lock and scroll lock flip each time they go down; no other key
/// changes anything.
pub open spec fn modifiers_after(bits: u16, key: Key, pressed: bool) -> u16 {
    match key {
        Key::Alt => if pressed {
            bits | ALT
        } else {
            bits & !ALT
        },
        Key::Ctrl => if pressed {
            bits | CTRL
        } else {
            bits & !CTRL
        },
        Key::LeftShift => if pressed {
            bits | SHIFT_LEFT
        } else {
            bits & !SHIFT_LEFT
        },
        Key::RightShift => if pressed {
            bits | SHIFT_RIGHT
        } else {
            bits & !SHIFT_RIGHT
        },
        Key::NumLock => if pressed {
            bits ^ NUM_LOCK
        } else {
            bits
        },
        Key::CapsLock => if pressed {
            bits ^ CAPS_LOCK
        } else {
            bits
        },
        Key::ScrollLock => if pressed {
            bits ^ SCROLL_LOCK
        } else {
            bits
        },
        _ => bits,
    }
}

/// Brings the modifiers up to date with a key that went down or up.
pub fn update_modifiers(modifiers: &mut KeyModifiers, key: Key, pressed: bool)
    ensures
        final(modifiers).0 == modifiers_after(old(modifiers).0, key, pressed),
{
    match key {
        Key::Alt => modifiers.set(ALT, pressed),
        Key::Ctrl => modifiers.set(CTRL, pressed),
        Key::LeftShift => modifiers.set(SHIFT_LEFT, pressed),
        Key::RightShift => modifiers.set(SHIFT_RIGHT, pressed),
        Key::NumLock => if pressed {
            modifiers.toggle(NUM_LOCK)
        },
        Key::CapsLock => if pressed {
            modifiers.toggle(CAPS_LOCK)
        },
        Key::ScrollLock => if pressed {
            modifiers.toggle(SCROLL_LOCK)
        },
        _ => {},
    }
}

/// What a scan code amounts to.
#[derive(Clone, Copy, Debug, PartialEq, Eq, Structural)]
pub enum KeyboardEvent {
    /// No key sends this code.
    Invalid(u8),
    /// A key went down that types this character.
    Typed(char),
    /// A key went up, or one went down that types nothing.
    Silent,
}

/// What `scan_code` amounts to under the modifiers `bits`: the modifiers
/// are brought up to date first, and the character is the one typed
/// under them.
pub open spec fn event_of(bits: u16, scan_code: u8) -> KeyboardEvent {
    match decoded(scan_code) {
        None => KeyboardEvent::Invalid(scan_code),
        Some((key, pressed)) => match key_ascii(
            key,
            KeyModifiers(modifiers_after(bits, key, pressed)),
        ) {
            Some(c) if pressed => KeyboardEvent::Typed(c),
            _ => KeyboardEvent::Silent,
        },
    }
}

/// Takes in one scan code: brings the modifiers up to date and says what
/// the code amounts to. A code that no key sends leaves the modifiers as
/// they are.
pub fn handle_keyboard_event(modifiers: &mut KeyModifiers, scan_code: u8) -> (res: KeyboardEvent)
    ensures
        res == event_of(old(modifiers).0, scan_code),
        final(modifiers).0 == (match decoded(scan_code) {
            None => old(modifiers).0,
            Some((key, pressed)) => modifiers_after(old(modifiers).0, key, pressed),
        }),
{
    let (key, pressed) = match decode_key(scan_code) {
        Some(pair) => pair,
        None => {
            return KeyboardEvent::Invalid(scan_code);
        },
    };
    update_modifiers(modifiers, key, pressed);
    if pressed {
        if let Some(c) = key.to_ascii(*modifiers) {
            return KeyboardEvent::Typed(c);
        }
    }
    KeyboardEvent::Silent
}

/// A key that is held and then let go leaves its modifier off, whatever
/// it was before; a lock key that goes down twice leaves its lock as it
/// was.
pub proof fn lemma_modifier_cycles(bits: u16)
    by (bit_vector)
    ensures
        (bits | ALT) & !ALT == bits & !ALT,
        (bits | CTRL) & !CTRL == bits & !CTRL,
        (bits | SHIFT_LEFT) & !SHIFT_LEFT == bits & !SHIFT_LEFT,
        (bits | SHIFT_RIGHT) & !SHIFT_RIGHT == bits & !SHIFT_RIGHT,
        (bits ^ NUM_LOCK) ^ NUM_LOCK == bits,
        (bits ^ CAPS_LOCK) ^ CAPS_LOCK == bits,
        (bits ^ SCROLL_LOCK) ^ SCROLL_LOCK == bits,
        any_set(bits | SHIFT_LEFT, SHIFT_LEFT | SHIFT_RIGHT),
        any_set(bits | SHIFT_RIGHT, SHIFT_LEFT | SHIFT_RIGHT),
        !any_set(0, SHIFT_LEFT | SHIFT_RIGHT),
        !any_set(0, CAPS_LOCK),
        any_set(CAPS_LOCK, CAPS_LOCK),
{
}

} // verus!
