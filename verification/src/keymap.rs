//! The key vocabulary: from the platform's name of a physical key to the
//! token that stands for it on the wire.
//!
//! The digit row is written as bare digits, the numeric keypad as `Numpad`
//! tokens, and each modifier with its side in front. A key that the
//! vocabulary does not list keeps the platform's name.

use vstd::prelude::*;
use device_query::Keycode;
use crate::device::{debug_name, keycode_name};
use crate::text::same_text;

verus! {

/// The token that the vocabulary lists for the key named `name`, if it lists one.
pub open spec fn table_token(name: Seq<char>) -> Option<Seq<char>> {
    if name == "Key1"@ {
        Some("1"@)
    } else if name == "Key2"@ {
        Some("2"@)
    } else if name == "Key3"@ {
        Some("3"@)
    } else if name == "Key4"@ {
        Some("4"@)
    } else if name == "Key5"@ {
        Some("5"@)
    } else if name == "Key6"@ {
        Some("6"@)
    } else if name == "Key7"@ {
        Some("7"@)
    } else if name == "Key8"@ {
        Some("8"@)
    } else if name == "Key9"@ {
        Some("9"@)
    } else if name == "Key0"@ {
        Some("0"@)
    } else if name == "Numpad0"@ {
        Some("Numpad0"@)
    } else if name == "Numpad1"@ {
        Some("Numpad1"@)
    } else if name == "Numpad2"@ {
        Some("Numpad2"@)
    } else if name == "Numpad3"@ {
        Some("Numpad3"@)
    } else if name == "Numpad4"@ {
        Some("Numpad4"@)
    } else if name == "Numpad5"@ {
        Some("Numpad5"@)
    } else if name == "Numpad6"@ {
        Some("Numpad6"@)
    } else if name == "Numpad7"@ {
        Some("Numpad7"@)
    } else if name == "Numpad8"@ {
        Some("Numpad8"@)
    } else if name == "Numpad9"@ {
        Some("Numpad9"@)
    } else if name == "NumpadSlash"@ {
        Some("NumpadDivide"@)
    } else if name == "NumpadAsterisk"@ {
        Some("NumpadMultiply"@)
    } else if name == "NumpadMinus"@ {
        Some("NumpadSubtract"@)
    } else if name == "NumpadPlus"@ {
        Some("NumpadAdd"@)
    } else if name == "NumpadEnter"@ {
        Some("NumpadEnter"@)
    } else if name == "NumpadDot"@ {
        Some("NumpadDecimal"@)
    } else if name == "ControlLeft"@ {
        Some("LCtrl"@)
    } else if name == "ControlRight"@ {
        Some("RCtrl"@)
    } else if name == "AltLeft"@ {
        Some("LAlt"@)
    } else if name == "AltRight"@ {
        Some("RAlt"@)
    } else if name == "ShiftLeft"@ {
        Some("LShift"@)
    } else if name == "ShiftRight"@ {
        Some("RShift"@)
    } else if name == "MetaLeft"@ {
        Some("LCommand"@)
    } else if name == "MetaRight"@ {
        Some("RCommand"@)
    } else {
        None
    }
}

/// The token that stands for the key named `name`: the one that the
/// vocabulary lists, or else the name itself.
pub open spec fn normalized(name: Seq<char>) -> Seq<char> {
    match table_token(name) {
        Some(token) => token,
        None => name,
    }
}

/// No token of the vocabulary is empty, so a key with a name always has a
/// token that can be read: the listed one, or its own name.
pub proof fn lemma_token_is_not_empty(name: Seq<char>)
    requires
        name.len() > 0,
    ensures
        normalized(name).len() > 0,
        table_token(name) is None ==> normalized(name) == name,
{
    reveal_strlit("1");
    reveal_strlit("2");
    reveal_strlit("3");
    reveal_strlit("4");
    reveal_strlit("5");
    reveal_strlit("6");
    reveal_strlit("7");
    reveal_strlit("8");
    reveal_strlit("9");
    reveal_strlit("0");
    reveal_strlit("Numpad0");
    reveal_strlit("Numpad1");
    reveal_strlit("Numpad2");
    reveal_strlit("Numpad3");
    reveal_strlit("Numpad4");
    reveal_strlit("Numpad5");
    reveal_strlit("Numpad6");
    reveal_strlit("Numpad7");
    reveal_strlit("Numpad8");
    reveal_strlit("Numpad9");
    reveal_strlit("NumpadDivide");
    reveal_strlit("NumpadMultiply");
    reveal_strlit("NumpadSubtract");
    reveal_strlit("NumpadAdd");
    reveal_strlit("NumpadEnter");
    reveal_strlit("NumpadDecimal");
    reveal_strlit("LCtrl");
    reveal_strlit("RCtrl");
    reveal_strlit("LAlt");
    reveal_strlit("RAlt");
    reveal_strlit("LShift");
    reveal_strlit("RShift");
    reveal_strlit("LCommand");
    reveal_strlit("RCommand");
}

/// Looks the key named `name` up in the vocabulary.
pub fn lookup(name: &str) -> (token: Option<&'static str>)
    ensures
        match token {
            Some(t) => table_token(name@) == Some(t@),
            None => table_token(name@) is None,
        },
{
    if same_text(name, "Key1") {
        Some("1")
    } else if same_text(name, "Key2") {
        Some("2")
    } else if same_text(name, "Key3") {
        Some("3")
    } else if same_text(name, "Key4") {
        Some("4")
    } else if same_text(name, "Key5") {
        Some("5")
    } else if same_text(name, "Key6") {
        Some("6")
    } else if same_text(name, "Key7") {
        Some("7")
    } else if same_text(name, "Key8") {
        Some("8")
    } else if same_text(name, "Key9") {
        Some("9")
    } else if same_text(name, "Key0") {
        Some("0")
    } else if same_text(name, "Numpad0") {
        Some("Numpad0")
    } else if same_text(name, "Numpad1") {
        Some("Numpad1")
    } else if same_text(name, "Numpad2") {
        Some("Numpad2")
    } else if same_text(name, "Numpad3") {
        Some("Numpad3")
    } else if same_text(name, "Numpad4") {
        Some("Numpad4")
    } else if same_text(name, "Numpad5") {
        Some("Numpad5")
    } else if same_text(name, "Numpad6") {
        Some("Numpad6")
    } else if same_text(name, "Numpad7") {
        Some("Numpad7")
    } else if same_text(name, "Numpad8") {
        Some("Numpad8")
    } else if same_text(name, "Numpad9") {
        Some("Numpad9")
    } else if same_text(name, "NumpadSlash") {
        Some("NumpadDivide")
    } else if same_text(name, "NumpadAsterisk") {
        Some("NumpadMultiply")
    } else if same_text(name, "NumpadMinus") {
        Some("NumpadSubtract")
    } else if same_text(name, "NumpadPlus") {
        Some("NumpadAdd")
    } else if same_text(name, "NumpadEnter") {
        Some("NumpadEnter")
    } else if same_text(name, "NumpadDot") {
        Some("NumpadDecimal")
    } else if same_text(name, "ControlLeft") {
        Some("LCtrl")
    } else if same_text(name, "ControlRight") {
        Some("RCtrl")
    } else if same_text(name, "AltLeft") {
        Some("LAlt")
    } else if same_text(name, "AltRight") {
        Some("RAlt")
    } else if same_text(name, "ShiftLeft") {
        Some("LShift")
    } else if same_text(name, "ShiftRight") {
        Some("RShift")
    } else if same_text(name, "MetaLeft") {
        Some("LCommand")
    } else if same_text(name, "MetaRight") {
        Some("RCommand")
    } else {
        None
    }
}

/// The token for the key named `name`. Every name has one.
pub fn normalize(name: &str) -> (token: String)
    ensures
        token@ == normalized(name@),
{
    match lookup(name) {
        Some(listed) => listed.to_owned(),
        None => name.to_owned(),
    }
}

/// The token for a key as `device_query` reports it: the token of the name
/// under which the key is printed.
pub fn map_keycode(key: &Keycode) -> (token: String)
    ensures
        token@ == normalized(keycode_name(*key)),
        token@.len() > 0,
{
    let name = debug_name(key);
    proof {
        lemma_token_is_not_empty(name@);
    }
    normalize(name.as_str())
}

} // verus!
