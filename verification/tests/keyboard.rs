use ax_os::keyboard::scan_set_1::{decode_key, Key};
use ax_os::keyboard::{
    handle_keyboard_event, update_modifiers, KeyModifiers, KeyboardEvent, ALT, CAPS_LOCK, CTRL,
    NUM_LOCK, SCROLL_LOCK, SHIFT_LEFT, SHIFT_RIGHT,
};

#[test]
fn decode_valid() {
    assert_eq!(decode_key(0x10), Some((Key::Q, true)));
    assert_eq!(decode_key(0x90), Some((Key::Q, false)));

    assert_eq!(decode_key(0x58), Some((Key::F12, true)));
    assert_eq!(decode_key(0x58 + 0x80), Some((Key::F12, false)));
}

#[test]
fn decode_invalid() {
    assert_eq!(decode_key(0), None);
    assert_eq!(decode_key(0x54), None);
    assert_eq!(decode_key(0x55), None);
    assert_eq!(decode_key(0x56), None);

    assert_eq!(decode_key(0x80 + 0), None);
    assert_eq!(decode_key(0x80 + 0x54), None);
    assert_eq!(decode_key(0x80 + 0x55), None);
    assert_eq!(decode_key(0x80 + 0x56), None);
}

#[test]
fn decode_edges() {
    assert_eq!(decode_key(0x01), Some((Key::Escape, true)));
    assert_eq!(decode_key(0x81), Some((Key::Escape, false)));
    assert_eq!(decode_key(0x53), Some((Key::PadPeriod, true)));
    assert_eq!(decode_key(0x57), Some((Key::F11, true)));
    assert_eq!(decode_key(0x59), None);
    assert_eq!(decode_key(0x7f), None);
    assert_eq!(decode_key(0xd9), None);
    assert_eq!(decode_key(0xff), None);
}

#[test]
fn codes_and_keys_agree() {
    for code in 0..=255u8 {
        match Key::from_code(code) {
            Some(key) => {
                assert_eq!(key.code(), code);
                assert!((1..=0x58).contains(&code) && !(0x54..=0x56).contains(&code));
            }
            None => assert!(code == 0 || code > 0x58 || (0x54..=0x56).contains(&code)),
        }
    }
    assert_eq!(Key::_Unknown.code(), 0);
    assert_eq!(Key::_Unknown1.code(), 0x54);
    assert_eq!(Key::_Unknown3.code(), 0x56);
    assert_eq!(Key::F12.code(), 0x58);
    assert_eq!(Key::from_code(0x1e), Some(Key::A));
    assert_eq!(Key::from_code(0x39), Some(Key::Space));
}

#[test]
fn letters() {
    let mut count = 0;
    for code in 0..=0x58u8 {
        if let Some(key) = Key::from_code(code) {
            if key.is_letter() {
                count += 1;
                let c = key.to_ascii(KeyModifiers::empty()).unwrap();
                assert!(c.is_ascii_lowercase());
                assert_eq!(key.to_ascii(KeyModifiers(SHIFT_LEFT)), Some(c.to_ascii_uppercase()));
            }
        }
    }
    assert_eq!(count, 26);
    assert!(!Key::Num1.is_letter());
    assert!(!Key::Space.is_letter());
    assert!(Key::Z.is_letter());
}

#[test]
fn ascii_with_modifiers() {
    let no_modifiers = KeyModifiers::empty();
    let with_caps = KeyModifiers(CAPS_LOCK);
    let with_shift = KeyModifiers(SHIFT_LEFT);
    let with_caps_and_shift = KeyModifiers(CAPS_LOCK | SHIFT_LEFT);

    assert_eq!(Key::A.to_ascii(no_modifiers), Some('a'));
    assert_eq!(Key::A.to_ascii(with_caps), Some('A'));
    assert_eq!(Key::A.to_ascii(with_shift), Some('A'));
    assert_eq!(Key::A.to_ascii(with_caps_and_shift), Some('A'));

    assert_eq!(Key::Minus.to_ascii(no_modifiers), Some('-'));
    assert_eq!(Key::Comma.to_ascii(no_modifiers), Some(','));
    assert_eq!(Key::Slash.to_ascii(no_modifiers), Some('/'));

    assert_eq!(Key::Minus.to_ascii(with_caps), Some('-'));
    assert_eq!(Key::Comma.to_ascii(with_caps), Some(','));
    assert_eq!(Key::Slash.to_ascii(with_caps), Some('/'));

    assert_eq!(Key::Minus.to_ascii(with_shift), Some('_'));
    assert_eq!(Key::Comma.to_ascii(with_shift), Some('<'));
    assert_eq!(Key::Slash.to_ascii(with_shift), Some('?'));

    assert_eq!(Key::Minus.to_ascii(with_caps_and_shift), Some('_'));
    assert_eq!(Key::Comma.to_ascii(with_caps_and_shift), Some('<'));
    assert_eq!(Key::Slash.to_ascii(with_caps_and_shift), Some('?'));

    assert_eq!(Key::CapsLock.to_ascii(no_modifiers), None);
    assert_eq!(Key::CapsLock.to_ascii(with_caps), None);
    assert_eq!(Key::CapsLock.to_ascii(with_shift), None);
    assert_eq!(Key::CapsLock.to_ascii(with_caps_and_shift), None);
}

#[test]
fn invalid_letters() {
    let modifiers = KeyModifiers::empty();
    assert_eq!(Key::_Unknown.to_ascii(modifiers), None);
    assert_eq!(Key::_Unknown1.to_ascii(modifiers), None);
    assert_eq!(Key::_Unknown2.to_ascii(modifiers), None);
    assert_eq!(Key::_Unknown3.to_ascii(modifiers), None);
    assert_eq!(Key::F1.to_ascii(modifiers), None);
}

#[test]
fn more_characters() {
    let plain = KeyModifiers::empty();
    let right_shift = KeyModifiers(SHIFT_RIGHT);
    assert_eq!(Key::Escape.to_ascii(plain), Some('\x1b'));
    assert_eq!(Key::Escape.to_ascii(right_shift), None);
    assert_eq!(Key::Num1.to_ascii(plain), Some('1'));
    assert_eq!(Key::Num1.to_ascii(right_shift), Some('!'));
    assert_eq!(Key::Num0.to_ascii(plain), Some('0'));
    assert_eq!(Key::Num0.to_ascii(right_shift), Some(')'));
    assert_eq!(Key::Backspace.to_ascii(plain), Some('\x08'));
    assert_eq!(Key::Tab.to_ascii(plain), Some('\t'));
    assert_eq!(Key::Enter.to_ascii(plain), Some('\n'));
    assert_eq!(Key::Enter.to_ascii(right_shift), None);
    assert_eq!(Key::Space.to_ascii(plain), Some(' '));
    assert_eq!(Key::SingleQuote.to_ascii(plain), Some('\''));
    assert_eq!(Key::SingleQuote.to_ascii(right_shift), Some('"'));
    assert_eq!(Key::BackSlash.to_ascii(plain), Some('\\'));
    assert_eq!(Key::BackSlash.to_ascii(right_shift), Some('|'));
    assert_eq!(Key::Backtick.to_ascii(right_shift), Some('~'));
    assert_eq!(Key::PadStar.to_ascii(plain), Some('*'));
    assert_eq!(Key::Pad7.to_ascii(plain), Some('7'));
    assert_eq!(Key::Pad0.to_ascii(plain), Some('0'));
    assert_eq!(Key::PadPlus.to_ascii(plain), Some('+'));
    assert_eq!(Key::PadPeriod.to_ascii(plain), Some('.'));
    assert_eq!(Key::Pad7.to_ascii(right_shift), None);
    assert_eq!(Key::F12.to_ascii(plain), None);
    assert_eq!(Key::Ctrl.to_ascii(plain), None);
    assert_eq!(Key::Num1.to_ascii(KeyModifiers(CAPS_LOCK)), Some('1'));
}

#[test]
fn modifier_getters() {
    let none = KeyModifiers::empty();
    assert!(!none.ctrl() && !none.shift() && !none.alt() && !none.alt_gr());
    assert!(!none.super_key() && !none.caps_lock() && !none.num_lock() && !none.scroll_lock());
    assert!(KeyModifiers(1 << 0).ctrl());
    assert!(KeyModifiers(1 << 1).shift());
    assert!(KeyModifiers(1 << 2).shift());
    assert!(KeyModifiers(1 << 3).alt());
    assert!(KeyModifiers(1 << 4).alt_gr());
    assert!(KeyModifiers(1 << 5).super_key());
    assert!(KeyModifiers(1 << 6).super_key());
    assert!(KeyModifiers(1 << 7).caps_lock());
    assert!(KeyModifiers(1 << 8).num_lock());
    assert!(KeyModifiers(1 << 9).scroll_lock());
    assert!(!KeyModifiers(1 << 7).num_lock());
    assert!(!KeyModifiers(1 << 8).caps_lock());
    assert!(!KeyModifiers(0xffff & !CTRL).ctrl());
    assert!(KeyModifiers(CTRL | ALT).is_set(ALT));
    assert!(!KeyModifiers(CTRL | ALT).is_set(NUM_LOCK | SCROLL_LOCK));
}

#[test]
fn set_and_toggle() {
    let mut modifiers = KeyModifiers::empty();
    modifiers.set(CTRL, true);
    modifiers.set(ALT, true);
    assert_eq!(modifiers.0, CTRL | ALT);
    modifiers.set(CTRL, true);
    assert_eq!(modifiers.0, CTRL | ALT);
    modifiers.set(CTRL, false);
    assert_eq!(modifiers.0, ALT);
    modifiers.toggle(CAPS_LOCK);
    assert_eq!(modifiers.0, ALT | CAPS_LOCK);
    modifiers.toggle(CAPS_LOCK);
    assert_eq!(modifiers.0, ALT);
}

#[test]
fn keys_move_the_modifiers() {
    let mut modifiers = KeyModifiers::empty();
    update_modifiers(&mut modifiers, Key::LeftShift, true);
    assert!(modifiers.shift());
    update_modifiers(&mut modifiers, Key::RightShift, true);
    update_modifiers(&mut modifiers, Key::LeftShift, false);
    assert!(modifiers.shift());
    update_modifiers(&mut modifiers, Key::RightShift, false);
    assert!(!modifiers.shift());
    update_modifiers(&mut modifiers, Key::Ctrl, true);
    update_modifiers(&mut modifiers, Key::Alt, true);
    assert_eq!(modifiers.0, CTRL | ALT);
    update_modifiers(&mut modifiers, Key::A, true);
    update_modifiers(&mut modifiers, Key::A, false);
    assert_eq!(modifiers.0, CTRL | ALT);
    update_modifiers(&mut modifiers, Key::Ctrl, false);
    update_modifiers(&mut modifiers, Key::Alt, false);
    assert_eq!(modifiers.0, 0);

    update_modifiers(&mut modifiers, Key::CapsLock, true);
    assert!(modifiers.caps_lock());
    update_modifiers(&mut modifiers, Key::CapsLock, false);
    assert!(modifiers.caps_lock());
    update_modifiers(&mut modifiers, Key::CapsLock, true);
    assert!(!modifiers.caps_lock());
    update_modifiers(&mut modifiers, Key::NumLock, true);
    update_modifiers(&mut modifiers, Key::ScrollLock, true);
    assert_eq!(modifiers.0, NUM_LOCK | SCROLL_LOCK);
    update_modifiers(&mut modifiers, Key::NumLock, false);
    update_modifiers(&mut modifiers, Key::ScrollLock, false);
    assert_eq!(modifiers.0, NUM_LOCK | SCROLL_LOCK);
}

#[test]
fn typing() {
    let mut modifiers = KeyModifiers::empty();
    assert_eq!(handle_keyboard_event(&mut modifiers, 0x1e), KeyboardEvent::Typed('a'));
    assert_eq!(handle_keyboard_event(&mut modifiers, 0x9e), KeyboardEvent::Silent);
    assert_eq!(handle_keyboard_event(&mut modifiers, 0x2a), KeyboardEvent::Silent);
    assert_eq!(modifiers.0, SHIFT_LEFT);
    assert_eq!(handle_keyboard_event(&mut modifiers, 0x1e), KeyboardEvent::Typed('A'));
    assert_eq!(handle_keyboard_event(&mut modifiers, 0x02), KeyboardEvent::Typed('!'));
    assert_eq!(handle_keyboard_event(&mut modifiers, 0xaa), KeyboardEvent::Silent);
    assert_eq!(modifiers.0, 0);
    assert_eq!(handle_keyboard_event(&mut modifiers, 0x02), KeyboardEvent::Typed('1'));
    assert_eq!(handle_keyboard_event(&mut modifiers, 0x3a), KeyboardEvent::Silent);
    assert_eq!(modifiers.0, CAPS_LOCK);
    assert_eq!(handle_keyboard_event(&mut modifiers, 0x10), KeyboardEvent::Typed('Q'));
    assert_eq!(handle_keyboard_event(&mut modifiers, 0x0c), KeyboardEvent::Typed('-'));
    assert_eq!(handle_keyboard_event(&mut modifiers, 0x3b), KeyboardEvent::Silent);
}

#[test]
fn codes_of_no_key_change_nothing() {
    let mut modifiers = KeyModifiers(CTRL | CAPS_LOCK);
    assert_eq!(handle_keyboard_event(&mut modifiers, 0), KeyboardEvent::Invalid(0));
    assert_eq!(handle_keyboard_event(&mut modifiers, 0x54), KeyboardEvent::Invalid(0x54));
    assert_eq!(handle_keyboard_event(&mut modifiers, 0x80), KeyboardEvent::Invalid(0x80));
    assert_eq!(handle_keyboard_event(&mut modifiers, 0xff), KeyboardEvent::Invalid(0xff));
    assert_eq!(modifiers.0, CTRL | CAPS_LOCK);
}
