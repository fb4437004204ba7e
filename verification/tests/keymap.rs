use device_query::Keycode;
use key_relay::keymap::{lookup, map_keycode, normalize};

#[test]
fn digit_row_keys_become_digits() {
    assert_eq!(normalize("Key1"), "1");
    assert_eq!(normalize("Key2"), "2");
    assert_eq!(normalize("Key3"), "3");
    assert_eq!(normalize("Key4"), "4");
    assert_eq!(normalize("Key5"), "5");
    assert_eq!(normalize("Key6"), "6");
    assert_eq!(normalize("Key7"), "7");
    assert_eq!(normalize("Key8"), "8");
    assert_eq!(normalize("Key9"), "9");
    assert_eq!(normalize("Key0"), "0");
}

#[test]
fn numpad_digits_keep_their_names() {
    assert_eq!(normalize("Numpad0"), "Numpad0");
    assert_eq!(normalize("Numpad1"), "Numpad1");
    assert_eq!(normalize("Numpad2"), "Numpad2");
    assert_eq!(normalize("Numpad3"), "Numpad3");
    assert_eq!(normalize("Numpad4"), "Numpad4");
    assert_eq!(normalize("Numpad5"), "Numpad5");
    assert_eq!(normalize("Numpad6"), "Numpad6");
    assert_eq!(normalize("Numpad7"), "Numpad7");
    assert_eq!(normalize("Numpad8"), "Numpad8");
    assert_eq!(normalize("Numpad9"), "Numpad9");
}

#[test]
fn numpad_operators_are_spelled_out() {
    assert_eq!(normalize("NumpadSlash"), "NumpadDivide");
    assert_eq!(normalize("NumpadAsterisk"), "NumpadMultiply");
    assert_eq!(normalize("NumpadMinus"), "NumpadSubtract");
    assert_eq!(normalize("NumpadPlus"), "NumpadAdd");
    assert_eq!(normalize("NumpadEnter"), "NumpadEnter");
    assert_eq!(normalize("NumpadDot"), "NumpadDecimal");
}

#[test]
fn modifiers_carry_their_side_in_front() {
    assert_eq!(normalize("ControlLeft"), "LCtrl");
    assert_eq!(normalize("ControlRight"), "RCtrl");
    assert_eq!(normalize("AltLeft"), "LAlt");
    assert_eq!(normalize("AltRight"), "RAlt");
    assert_eq!(normalize("ShiftLeft"), "LShift");
    assert_eq!(normalize("ShiftRight"), "RShift");
    assert_eq!(normalize("MetaLeft"), "LCommand");
    assert_eq!(normalize("MetaRight"), "RCommand");
}

#[test]
fn unlisted_keys_keep_their_names() {
    assert_eq!(normalize("A"), "A");
    assert_eq!(normalize("F12"), "F12");
    assert_eq!(normalize("Escape"), "Escape");
    assert_eq!(normalize("LControl"), "LControl");
    assert_eq!(normalize("NumpadDivide"), "NumpadDivide");
}

#[test]
fn names_are_matched_whole_and_by_case() {
    assert_eq!(normalize("key1"), "key1");
    assert_eq!(normalize("Key10"), "Key10");
    assert_eq!(normalize("Key"), "Key");
    assert_eq!(normalize(" ControlLeft"), " ControlLeft");
    assert_eq!(normalize("Numpad"), "Numpad");
}

#[test]
fn names_beyond_ascii_keep_their_names() {
    assert_eq!(normalize("Ä"), "Ä");
    assert_eq!(normalize("Key1é"), "Key1é");
}

#[test]
fn lookup_tells_listed_from_unlisted() {
    assert_eq!(lookup("ShiftLeft"), Some("LShift"));
    assert_eq!(lookup("Key7"), Some("7"));
    assert_eq!(lookup("LShift"), None);
    assert_eq!(lookup(""), None);
}

#[test]
fn normalizing_twice_gives_the_same_token() {
    assert_eq!(normalize("MetaLeft"), normalize("MetaLeft"));
    assert_eq!(normalize("Tab"), normalize("Tab"));
}

#[test]
fn reported_keys_are_named_by_their_variant() {
    assert_eq!(map_keycode(&Keycode::Key1), "1");
    assert_eq!(map_keycode(&Keycode::Key0), "0");
    assert_eq!(map_keycode(&Keycode::Numpad5), "Numpad5");
    assert_eq!(map_keycode(&Keycode::NumpadEnter), "NumpadEnter");
    assert_eq!(map_keycode(&Keycode::NumpadDivide), "NumpadDivide");
    assert_eq!(map_keycode(&Keycode::LControl), "LControl");
    assert_eq!(map_keycode(&Keycode::RShift), "RShift");
    assert_eq!(map_keycode(&Keycode::A), "A");
    assert_eq!(map_keycode(&Keycode::Space), "Space");
}

#[test]
fn every_reported_key_has_a_token() {
    let keys = [
        Keycode::Key3,
        Keycode::Z,
        Keycode::F20,
        Keycode::LMeta,
        Keycode::Command,
        Keycode::Grave,
        Keycode::NumpadDecimal,
    ];
    for key in keys.iter() {
        assert!(!map_keycode(key).is_empty());
    }
}
