//! Keys of the keyboard: their names in the overlay, and the detection of a
//! JIS or US keyboard layout.
use crate::text::{chars_of, decimal, is_control, is_private_use, push_decimal, same_text, string_of, char_is_control, char_is_private_use, push_chars};
use vstd::prelude::*;

verus! {

/// A physical key, as the global input listener reports it.
#[derive(Clone, Copy, Debug, PartialEq, Eq, Structural)]
pub enum Key {
    Alt,
    AltGr,
    Backspace,
    CapsLock,
    ControlLeft,
    ControlRight,
    Delete,
    DownArrow,
    End,
    Escape,
    F1,
    F10,
    F11,
    F12,
    F2,
    F3,
    F4,
    F5,
    F6,
    F7,
    F8,
    F9,
    Home,
    LeftArrow,
    MetaLeft,
    MetaRight,
    PageDown,
    PageUp,
    Return,
    RightArrow,
    ShiftLeft,
    ShiftRight,
    Space,
    Tab,
    UpArrow,
    PrintScreen,
    ScrollLock,
    Pause,
    NumLock,
    BackQuote,
    Num1,
    Num2,
    Num3,
    Num4,
    Num5,
    Num6,
    Num7,
    Num8,
    Num9,
    Num0,
    Minus,
    Equal,
    KeyQ,
    KeyW,
    KeyE,
    KeyR,
    KeyT,
    KeyY,
    KeyU,
    KeyI,
    KeyO,
    KeyP,
    LeftBracket,
    RightBracket,
    KeyA,
    KeyS,
    KeyD,
    KeyF,
    KeyG,
    KeyH,
    KeyJ,
    KeyK,
    KeyL,
    SemiColon,
    Quote,
    BackSlash,
    IntlBackslash,
    KeyZ,
    KeyX,
    KeyC,
    KeyV,
    KeyB,
    KeyN,
    KeyM,
    Comma,
    Dot,
    Slash,
    Insert,
    KpReturn,
    KpMinus,
    KpPlus,
    KpMultiply,
    KpDivide,
    Kp0,
    Kp1,
    Kp2,
    Kp3,
    Kp4,
    Kp5,
    Kp6,
    Kp7,
    Kp8,
    Kp9,
    KpDelete,
    Function,
    Unknown(u32),
}

/// The name of a key's variant (`Unknown` for an unknown key).
pub open spec fn variant_name(key: Key) -> Seq<char> {
    match key {
        Key::Alt => "Alt"@,
        Key::AltGr => "AltGr"@,
        Key::Backspace => "Backspace"@,
        Key::CapsLock => "CapsLock"@,
        Key::ControlLeft => "ControlLeft"@,
        Key::ControlRight => "ControlRight"@,
        Key::Delete => "Delete"@,
        Key::DownArrow => "DownArrow"@,
        Key::End => "End"@,
        Key::Escape => "Escape"@,
        Key::F1 => "F1"@,
        Key::F10 => "F10"@,
        Key::F11 => "F11"@,
        Key::F12 => "F12"@,
        Key::F2 => "F2"@,
        Key::F3 => "F3"@,
        Key::F4 => "F4"@,
        Key::F5 => "F5"@,
        Key::F6 => "F6"@,
        Key::F7 => "F7"@,
        Key::F8 => "F8"@,
        Key::F9 => "F9"@,
        Key::Home => "Home"@,
        Key::LeftArrow => "LeftArrow"@,
        Key::MetaLeft => "MetaLeft"@,
        Key::MetaRight => "MetaRight"@,
        Key::PageDown => "PageDown"@,
        Key::PageUp => "PageUp"@,
        Key::Return => "Return"@,
        Key::RightArrow => "RightArrow"@,
        Key::ShiftLeft => "ShiftLeft"@,
        Key::ShiftRight => "ShiftRight"@,
        Key::Space => "Space"@,
        Key::Tab => "Tab"@,
        Key::UpArrow => "UpArrow"@,
        Key::PrintScreen => "PrintScreen"@,
        Key::ScrollLock => "ScrollLock"@,
        Key::Pause => "Pause"@,
        Key::NumLock => "NumLock"@,
        Key::BackQuote => "BackQuote"@,
        Key::Num1 => "Num1"@,
        Key::Num2 => "Num2"@,
        Key::Num3 => "Num3"@,
        Key::Num4 => "Num4"@,
        Key::Num5 => "Num5"@,
        Key::Num6 => "Num6"@,
        Key::Num7 => "Num7"@,
        Key::Num8 => "Num8"@,
        Key::Num9 => "Num9"@,
        Key::Num0 => "Num0"@,
        Key::Minus => "Minus"@,
        Key::Equal => "Equal"@,
        Key::KeyQ => "KeyQ"@,
        Key::KeyW => "KeyW"@,
        Key::KeyE => "KeyE"@,
        Key::KeyR => "KeyR"@,
        Key::KeyT => "KeyT"@,
        Key::KeyY => "KeyY"@,
        Key::KeyU => "KeyU"@,
        Key::KeyI => "KeyI"@,
        Key::KeyO => "KeyO"@,
        Key::KeyP => "KeyP"@,
        Key::LeftBracket => "LeftBracket"@,
        Key::RightBracket => "RightBracket"@,
        Key::KeyA => "KeyA"@,
        Key::KeyS => "KeyS"@,
        Key::KeyD => "KeyD"@,
        Key::KeyF => "KeyF"@,
        Key::KeyG => "KeyG"@,
        Key::KeyH => "KeyH"@,
        Key::KeyJ => "KeyJ"@,
        Key::KeyK => "KeyK"@,
        Key::KeyL => "KeyL"@,
        Key::SemiColon => "SemiColon"@,
        Key::Quote => "Quote"@,
        Key::BackSlash => "BackSlash"@,
        Key::IntlBackslash => "IntlBackslash"@,
        Key::KeyZ => "KeyZ"@,
        Key::KeyX => "KeyX"@,
        Key::KeyC => "KeyC"@,
        Key::KeyV => "KeyV"@,
        Key::KeyB => "KeyB"@,
        Key::KeyN => "KeyN"@,
        Key::KeyM => "KeyM"@,
        Key::Comma => "Comma"@,
        Key::Dot => "Dot"@,
        Key::Slash => "Slash"@,
        Key::Insert => "Insert"@,
        Key::KpReturn => "KpReturn"@,
        Key::KpMinus => "KpMinus"@,
        Key::KpPlus => "KpPlus"@,
        Key::KpMultiply => "KpMultiply"@,
        Key::KpDivide => "KpDivide"@,
        Key::Kp0 => "Kp0"@,
        Key::Kp1 => "Kp1"@,
        Key::Kp2 => "Kp2"@,
        Key::Kp3 => "Kp3"@,
        Key::Kp4 => "Kp4"@,
        Key::Kp5 => "Kp5"@,
        Key::Kp6 => "Kp6"@,
        Key::Kp7 => "Kp7"@,
        Key::Kp8 => "Kp8"@,
        Key::Kp9 => "Kp9"@,
        Key::KpDelete => "KpDelete"@,
        Key::Function => "Function"@,
        Key::Unknown(_) => "Unknown"@,
    }
}

/// A key as its `Debug` text writes it: the variant's name, and for an
/// unknown key its code in brackets.
pub open spec fn key_debug_name(key: Key) -> Seq<char> {
    match key {
        Key::Unknown(code) => "Unknown"@ + seq!['('] + decimal(code as nat) + seq![')'],
        _ => variant_name(key),
    }
}

/// The variant's name of a key.
fn variant_str(key: Key) -> (r: &'static str)
    ensures
        r@ == variant_name(key),
{
    match key {
        Key::Alt => "Alt",
        Key::AltGr => "AltGr",
        Key::Backspace => "Backspace",
        Key::CapsLock => "CapsLock",
        Key::ControlLeft => "ControlLeft",
        Key::ControlRight => "ControlRight",
        Key::Delete => "Delete",
        Key::DownArrow => "DownArrow",
        Key::End => "End",
        Key::Escape => "Escape",
        Key::F1 => "F1",
        Key::F10 => "F10",
        Key::F11 => "F11",
        Key::F12 => "F12",
        Key::F2 => "F2",
        Key::F3 => "F3",
        Key::F4 => "F4",
        Key::F5 => "F5",
        Key::F6 => "F6",
        Key::F7 => "F7",
        Key::F8 => "F8",
        Key::F9 => "F9",
        Key::Home => "Home",
        Key::LeftArrow => "LeftArrow",
        Key::MetaLeft => "MetaLeft",
        Key::MetaRight => "MetaRight",
        Key::PageDown => "PageDown",
        Key::PageUp => "PageUp",
        Key::Return => "Return",
        Key::RightArrow => "RightArrow",
        Key::ShiftLeft => "ShiftLeft",
        Key::ShiftRight => "ShiftRight",
        Key::Space => "Space",
        Key::Tab => "Tab",
        Key::UpArrow => "UpArrow",
        Key::PrintScreen => "PrintScreen",
        Key::ScrollLock => "ScrollLock",
        Key::Pause => "Pause",
        Key::NumLock => "NumLock",
        Key::BackQuote => "BackQuote",
        Key::Num1 => "Num1",
        Key::Num2 => "Num2",
        Key::Num3 => "Num3",
        Key::Num4 => "Num4",
        Key::Num5 => "Num5",
        Key::Num6 => "Num6",
        Key::Num7 => "Num7",
        Key::Num8 => "Num8",
        Key::Num9 => "Num9",
        Key::Num0 => "Num0",
        Key::Minus => "Minus",
        Key::Equal => "Equal",
        Key::KeyQ => "KeyQ",
        Key::KeyW => "KeyW",
        Key::KeyE => "KeyE",
        Key::KeyR => "KeyR",
        Key::KeyT => "KeyT",
        Key::KeyY => "KeyY",
        Key::KeyU => "KeyU",
        Key::KeyI => "KeyI",
        Key::KeyO => "KeyO",
        Key::KeyP => "KeyP",
        Key::LeftBracket => "LeftBracket",
        Key::RightBracket => "RightBracket",
        Key::KeyA => "KeyA",
        Key::KeyS => "KeyS",
        Key::KeyD => "KeyD",
        Key::KeyF => "KeyF",
        Key::KeyG => "KeyG",
        Key::KeyH => "KeyH",
        Key::KeyJ => "KeyJ",
        Key::KeyK => "KeyK",
        Key::KeyL => "KeyL",
        Key::SemiColon => "SemiColon",
        Key::Quote => "Quote",
        Key::BackSlash => "BackSlash",
        Key::IntlBackslash => "IntlBackslash",
        Key::KeyZ => "KeyZ",
        Key::KeyX => "KeyX",
        Key::KeyC => "KeyC",
        Key::KeyV => "KeyV",
        Key::KeyB => "KeyB",
        Key::KeyN => "KeyN",
        Key::KeyM => "KeyM",
        Key::Comma => "Comma",
        Key::Dot => "Dot",
        Key::Slash => "Slash",
        Key::Insert => "Insert",
        Key::KpReturn => "KpReturn",
        Key::KpMinus => "KpMinus",
        Key::KpPlus => "KpPlus",
        Key::KpMultiply => "KpMultiply",
        Key::KpDivide => "KpDivide",
        Key::Kp0 => "Kp0",
        Key::Kp1 => "Kp1",
        Key::Kp2 => "Kp2",
        Key::Kp3 => "Kp3",
        Key::Kp4 => "Kp4",
        Key::Kp5 => "Kp5",
        Key::Kp6 => "Kp6",
        Key::Kp7 => "Kp7",
        Key::Kp8 => "Kp8",
        Key::Kp9 => "Kp9",
        Key::KpDelete => "KpDelete",
        Key::Function => "Function",
        Key::Unknown(_) => "Unknown",
    }
}

/// The `Debug` text of a key (see `key_debug_name`).
pub fn key_debug_text(key: Key) -> (r: String)
    ensures
        r@ == key_debug_name(key),
{
    let mut r = string_of(variant_str(key));
    if let Key::Unknown(code) = key {
        r.push('(');
        push_decimal(&mut r, code as u64);
        r.push(')');
    }
    assert(r@ =~= key_debug_name(key));
    r
}

/// The name under which a physical key is shown whatever the layout: a
/// fixed name for modifiers, editing, navigation, function, number and
/// keypad keys and the four JIS keys, the letter for a letter key, and none
/// for the other keys.
pub open spec fn stable_key_name(key: Key) -> Option<Seq<char>> {
    match key {
        Key::ShiftLeft => Some("Shift"@),
        Key::ShiftRight => Some("RightShift"@),
        Key::ControlLeft => Some("Control"@),
        Key::ControlRight => Some("RightControl"@),
        Key::Alt => Some("Option"@),
        Key::AltGr => Some("RightOption"@),
        Key::MetaLeft => Some("Command"@),
        Key::MetaRight => Some("RightCommand"@),
        Key::Backspace => Some("Delete"@),
        Key::Return => Some("Return"@),
        Key::CapsLock => Some("CapsLock"@),
        Key::Delete => Some("Delete"@),
        Key::Tab => Some("Tab"@),
        Key::Escape => Some("Escape"@),
        Key::Home => Some("Home"@),
        Key::End => Some("End"@),
        Key::PageUp => Some("PageUp"@),
        Key::PageDown => Some("PageDown"@),
        Key::UpArrow => Some("UpArrow"@),
        Key::DownArrow => Some("DownArrow"@),
        Key::LeftArrow => Some("LeftArrow"@),
        Key::RightArrow => Some("RightArrow"@),
        Key::Function => Some("Function"@),
        Key::F1 => Some("F1"@),
        Key::F2 => Some("F2"@),
        Key::F3 => Some("F3"@),
        Key::F4 => Some("F4"@),
        Key::F5 => Some("F5"@),
        Key::F6 => Some("F6"@),
        Key::F7 => Some("F7"@),
        Key::F8 => Some("F8"@),
        Key::F9 => Some("F9"@),
        Key::F10 => Some("F10"@),
        Key::F11 => Some("F11"@),
        Key::F12 => Some("F12"@),
        Key::Space => Some("Space"@),
        Key::KpReturn => Some("Return"@),
        Key::Num1 => Some("1"@),
        Key::Num2 => Some("2"@),
        Key::Num3 => Some("3"@),
        Key::Num4 => Some("4"@),
        Key::Num5 => Some("5"@),
        Key::Num6 => Some("6"@),
        Key::Num7 => Some("7"@),
        Key::Num8 => Some("8"@),
        Key::Num9 => Some("9"@),
        Key::Num0 => Some("0"@),
        Key::NumLock => Some("NumLock"@),
        Key::KpMinus => Some("Minus"@),
        Key::KpPlus => Some("Plus"@),
        Key::KpMultiply => Some("Multiply"@),
        Key::KpDivide => Some("Slash"@),
        Key::Kp0 => Some("0"@),
        Key::Kp1 => Some("1"@),
        Key::Kp2 => Some("2"@),
        Key::Kp3 => Some("3"@),
        Key::Kp4 => Some("4"@),
        Key::Kp5 => Some("5"@),
        Key::Kp6 => Some("6"@),
        Key::Kp7 => Some("7"@),
        Key::Kp8 => Some("8"@),
        Key::Kp9 => Some("9"@),
        Key::KpDelete => Some("Delete"@),
        Key::PrintScreen => Some("PrintScreen"@),
        Key::ScrollLock => Some("ScrollLock"@),
        Key::Pause => Some("Pause"@),
        Key::Insert => Some("Insert"@),
        Key::Unknown(93) => Some("JisYen"@),
        Key::Unknown(94) => Some("JisUnderscore"@),
        Key::Unknown(102) => Some("Eisu"@),
        Key::Unknown(104) => Some("Kana"@),
        Key::Unknown(_) => None,
        _ => {
            let d = key_debug_name(key);
            if d.len() >= 3 && d.take(3) == seq!['K', 'e', 'y'] {
                Some(d.skip(3))
            } else {
                None
            }
        },
    }
}

/// The fixed name of a physical key, where it has one.
fn fixed_key_str(key: Key) -> (r: Option<&'static str>)
    ensures
        match r {
            Some(s) => stable_key_name(key) == Some(s@),
            None => match key {
                Key::Unknown(code) => code != 93 && code != 94 && code != 102 && code != 104,
                _ => stable_key_name(key) == {
                    let d = key_debug_name(key);
                    if d.len() >= 3 && d.take(3) == seq!['K', 'e', 'y'] {
                        Some(d.skip(3))
                    } else {
                        None::<Seq<char>>
                    }
                },
            },
        },
{
    match key {
        Key::ShiftLeft => Some("Shift"),
        Key::ShiftRight => Some("RightShift"),
        Key::ControlLeft => Some("Control"),
        Key::ControlRight => Some("RightControl"),
        Key::Alt => Some("Option"),
        Key::AltGr => Some("RightOption"),
        Key::MetaLeft => Some("Command"),
        Key::MetaRight => Some("RightCommand"),
        Key::Backspace => Some("Delete"),
        Key::Return => Some("Return"),
        Key::CapsLock => Some("CapsLock"),
        Key::Delete => Some("Delete"),
        Key::Tab => Some("Tab"),
        Key::Escape => Some("Escape"),
        Key::Home => Some("Home"),
        Key::End => Some("End"),
        Key::PageUp => Some("PageUp"),
        Key::PageDown => Some("PageDown"),
        Key::UpArrow => Some("UpArrow"),
        Key::DownArrow => Some("DownArrow"),
        Key::LeftArrow => Some("LeftArrow"),
        Key::RightArrow => Some("RightArrow"),
        Key::Function => Some("Function"),
        Key::F1 => Some("F1"),
        Key::F2 => Some("F2"),
        Key::F3 => Some("F3"),
        Key::F4 => Some("F4"),
        Key::F5 => Some("F5"),
        Key::F6 => Some("F6"),
        Key::F7 => Some("F7"),
        Key::F8 => Some("F8"),
        Key::F9 => Some("F9"),
        Key::F10 => Some("F10"),
        Key::F11 => Some("F11"),
        Key::F12 => Some("F12"),
        Key::Space => Some("Space"),
        Key::KpReturn => Some("Return"),
        Key::Num1 => Some("1"),
        Key::Num2 => Some("2"),
        Key::Num3 => Some("3"),
        Key::Num4 => Some("4"),
        Key::Num5 => Some("5"),
        Key::Num6 => Some("6"),
        Key::Num7 => Some("7"),
        Key::Num8 => Some("8"),
        Key::Num9 => Some("9"),
        Key::Num0 => Some("0"),
        Key::NumLock => Some("NumLock"),
        Key::KpMinus => Some("Minus"),
        Key::KpPlus => Some("Plus"),
        Key::KpMultiply => Some("Multiply"),
        Key::KpDivide => Some("Slash"),
        Key::Kp0 => Some("0"),
        Key::Kp1 => Some("1"),
        Key::Kp2 => Some("2"),
        Key::Kp3 => Some("3"),
        Key::Kp4 => Some("4"),
        Key::Kp5 => Some("5"),
        Key::Kp6 => Some("6"),
        Key::Kp7 => Some("7"),
        Key::Kp8 => Some("8"),
        Key::Kp9 => Some("9"),
        Key::KpDelete => Some("Delete"),
        Key::PrintScreen => Some("PrintScreen"),
        Key::ScrollLock => Some("ScrollLock"),
        Key::Pause => Some("Pause"),
        Key::Insert => Some("Insert"),
        Key::Unknown(93) => Some("JisYen"),
        Key::Unknown(94) => Some("JisUnderscore"),
        Key::Unknown(102) => Some("Eisu"),
        Key::Unknown(104) => Some("Kana"),
        _ => None,
    }
}

/// The name of a physical key (see `stable_key_name`).
pub fn stable_key_name_from_physical_key(key: Key) -> (r: Option<String>)
    ensures
        match r {
            Some(s) => stable_key_name(key) == Some(s@),
            None => stable_key_name(key) is None,
        },
{
    match fixed_key_str(key) {
        Some(s) => { return Some(string_of(s)); },
        None => {},
    }
    if let Key::Unknown(_) = key {
        return None;
    }
    let d = key_debug_text(key);
    let cs = chars_of(d.as_str());
    if cs.len() >= 3 && cs[0] == 'K' && cs[1] == 'e' && cs[2] == 'y' {
        let rest = cs.as_slice().split_at(3).1;
        let mut r = String::new();
        push_chars(&mut r, rest);
        assert(cs@.take(3) =~= seq!['K', 'e', 'y']);
        assert(r@ =~= cs@.skip(3));
        Some(r)
    } else {
        assert(!(cs@.len() >= 3 && cs@.take(3) == seq!['K', 'e', 'y'])) by {
            if cs@.len() >= 3 && cs@.take(3) == seq!['K', 'e', 'y'] {
                assert(cs@.take(3)[0] == 'K');
                assert(cs@.take(3)[1] == 'e');
                assert(cs@.take(3)[2] == 'y');
            }
        }
        None
    }
}

/// The upper case of an ASCII letter; other characters unchanged.
pub open spec fn ascii_upper(c: char) -> char {
    if 'a' <= c && c <= 'z' {
        ((c as u32) - 32) as char
    } else {
        c
    }
}

/// The label of a key from the name that the system gave its event:
/// `Alt` reads `Option`, `Meta` and `Super` read `Command`, a name of one
/// ASCII character (one byte) reads in upper case, any other name as it is.
pub open spec fn normalized_raw_name(name: Seq<char>) -> Seq<char> {
    if name == "Alt"@ {
        "Option"@
    } else if name == "Meta"@ || name == "Super"@ {
        "Command"@
    } else if name.len() == 1 && (name[0] as u32) < 128 {
        seq![ascii_upper(name[0])]
    } else {
        name
    }
}

fn to_ascii_upper(c: char) -> (r: char)
    ensures
        r == ascii_upper(c),
{
    if 'a' <= c && c <= 'z' {
        let v = c as u8;
        (v - 32) as char
    } else {
        c
    }
}

/// Normalizes the name of a key event (see `normalized_raw_name`).
pub fn normalize_key_raw_name(name: &str) -> (r: String)
    ensures
        r@ == normalized_raw_name(name@),
{
    if same_text(name, "Alt") {
        return string_of("Option");
    }
    if same_text(name, "Meta") || same_text(name, "Super") {
        return string_of("Command");
    }
    let cs = chars_of(name);
    if cs.len() == 1 && (cs[0] as u32) < 128 {
        let mut r = String::new();
        r.push(to_ascii_upper(cs[0]));
        assert(r@ =~= seq![ascii_upper(name@[0])]);
        r
    } else {
        string_of(name)
    }
}

/// A name worth showing: not empty, with no control character and no
/// private use character (such as the glyphs that some systems give to
/// function keys).
pub open spec fn printable_name(name: Seq<char>) -> bool {
    name.len() > 0 && forall|i: int| 0 <= i < name.len() ==> !is_control(#[trigger] name[i]) && !is_private_use(name[i])
}

/// Whether `name` is printable (see `printable_name`).
pub fn is_printable_key_name(name: &str) -> (r: bool)
    ensures
        r == printable_name(name@),
{
    let cs = chars_of(name);
    if cs.len() == 0 {
        return false;
    }
    let n = cs.len();
    for i in 0..n
        invariant
            n == cs@.len(),
            cs@ == name@,
            forall|j: int| 0 <= j < i ==> !is_control(#[trigger] cs@[j]) && !is_private_use(cs@[j]),
    {
        if char_is_control(cs[i]) || char_is_private_use(cs[i]) {
            return false;
        }
    }
    true
}

/// The view of an optional string.
pub open spec fn opt_view(o: Option<&String>) -> Option<Seq<char>> {
    match o {
        Some(s) => Some(s@),
        None => None,
    }
}

/// The view of an optional owned string.
pub open spec fn opt_string_view(o: Option<String>) -> Option<Seq<char>> {
    match o {
        Some(s) => Some(s@),
        None => None,
    }
}

/// The label of a key event and the raw name reported beside it: a key with
/// a fixed name shows it, with its `Debug` text as raw name; otherwise a
/// printable event name shows normalized, with itself as raw name; otherwise
/// the key's `Debug` text, without a raw name.
pub open spec fn key_names(event_name: Option<Seq<char>>, key: Key) -> (Seq<char>, Option<Seq<char>>) {
    match stable_key_name(key) {
        Some(n) => (n, Some(key_debug_name(key))),
        None => match event_name {
            Some(raw) => if printable_name(raw) {
                (normalized_raw_name(raw), Some(raw))
            } else {
                (key_debug_name(key), None)
            },
            None => (key_debug_name(key), None),
        },
    }
}

/// The label and raw name of a key event (see `key_names`).
pub fn key_name_for_event(event_name: Option<&String>, key: Key) -> (r: (String, Option<String>))
    ensures
        (r.0@, opt_string_view(r.1)) == key_names(opt_view(event_name), key),
{
    if let Some(name) = stable_key_name_from_physical_key(key) {
        return (name, Some(key_debug_text(key)));
    }
    if let Some(name) = event_name {
        if is_printable_key_name(name.as_str()) {
            let normalized = normalize_key_raw_name(name.as_str());
            return (normalized, Some(name.clone()));
        }
    }
    (key_debug_text(key), None)
}

/// The keyboard layout, as far as the keys seen so far tell it.
#[derive(Clone, Copy, Debug, PartialEq, Eq, Structural)]
pub enum KeyboardLayout {
    Unknown,
    Jis,
    Us,
}

/// What one key event tells of the layout: the four keys found only on JIS
/// keyboards, or an event named with a yen sign, tell JIS; the backslash key
/// named with a backslash tells US; anything else tells nothing.
pub open spec fn inferred_layout(key: Key, event_name: Option<Seq<char>>) -> Option<KeyboardLayout> {
    match key {
        Key::Unknown(93) | Key::Unknown(94) | Key::Unknown(102) | Key::Unknown(104) => Some(
            KeyboardLayout::Jis,
        ),
        _ => match event_name {
            Some(name) => if name == "\u{a5}"@ || name == "\u{ffe5}"@ {
                Some(KeyboardLayout::Jis)
            } else if key == Key::BackSlash && name == "\\"@ {
                Some(KeyboardLayout::Us)
            } else {
                None
            },
            None => None,
        },
    }
}

/// What a key event tells of the layout (see `inferred_layout`).
pub fn infer_keyboard_layout(key: Key, event_name: Option<&String>) -> (r: Option<KeyboardLayout>)
    ensures
        r == inferred_layout(key, opt_view(event_name)),
{
    match key {
        Key::Unknown(93) | Key::Unknown(94) | Key::Unknown(102) | Key::Unknown(104) => {
            return Some(KeyboardLayout::Jis);
        },
        _ => {},
    }
    if let Some(name) = event_name {
        if same_text(name.as_str(), "\u{a5}") || same_text(name.as_str(), "\u{ffe5}") {
            return Some(KeyboardLayout::Jis);
        }
        if key == Key::BackSlash && same_text(name.as_str(), "\\") {
            return Some(KeyboardLayout::Us);
        }
    }
    None
}

/// The layout after a key event: JIS, once seen, stays; evidence of JIS
/// wins; an unknown layout takes whatever the event tells; a known layout
/// is otherwise kept.
pub open spec fn next_layout(current: KeyboardLayout, inferred: Option<KeyboardLayout>) -> KeyboardLayout {
    match (current, inferred) {
        (KeyboardLayout::Jis, _) => KeyboardLayout::Jis,
        (_, Some(KeyboardLayout::Jis)) => KeyboardLayout::Jis,
        (KeyboardLayout::Unknown, Some(layout)) => layout,
        _ => current,
    }
}

/// Updates the detected layout with a key event, and returns it.
pub fn update_keyboard_layout(
    detected_keyboard_layout: &mut KeyboardLayout,
    key: Key,
    event_name: Option<&String>,
) -> (r: KeyboardLayout)
    ensures
        *final(detected_keyboard_layout) == next_layout(
            *old(detected_keyboard_layout),
            inferred_layout(key, opt_view(event_name)),
        ),
        r == *final(detected_keyboard_layout),
{
    let inferred = infer_keyboard_layout(key, event_name);
    match (*detected_keyboard_layout, inferred) {
        (KeyboardLayout::Jis, _) => KeyboardLayout::Jis,
        (_, Some(KeyboardLayout::Jis)) => {
            *detected_keyboard_layout = KeyboardLayout::Jis;
            KeyboardLayout::Jis
        },
        (KeyboardLayout::Unknown, Some(layout)) => {
            *detected_keyboard_layout = layout;
            layout
        },
        _ => *detected_keyboard_layout,
    }
}


/// Every key with a fixed label, and that label: the modifiers by side
/// (the right-hand one prefixed with `Right`), editing, navigation,
/// function, number and keypad keys, the four JIS keys, and each letter key
/// by its letter.
pub proof fn fixed_key_labels()
    ensures
        stable_key_name(Key::ShiftLeft) == Some("Shift"@),
        stable_key_name(Key::ShiftRight) == Some("RightShift"@),
        stable_key_name(Key::ControlLeft) == Some("Control"@),
        stable_key_name(Key::ControlRight) == Some("RightControl"@),
        stable_key_name(Key::Alt) == Some("Option"@),
        stable_key_name(Key::AltGr) == Some("RightOption"@),
        stable_key_name(Key::MetaLeft) == Some("Command"@),
        stable_key_name(Key::MetaRight) == Some("RightCommand"@),
        stable_key_name(Key::Backspace) == Some("Delete"@),
        stable_key_name(Key::Return) == Some("Return"@),
        stable_key_name(Key::CapsLock) == Some("CapsLock"@),
        stable_key_name(Key::Delete) == Some("Delete"@),
        stable_key_name(Key::Tab) == Some("Tab"@),
        stable_key_name(Key::Escape) == Some("Escape"@),
        stable_key_name(Key::Home) == Some("Home"@),
        stable_key_name(Key::End) == Some("End"@),
        stable_key_name(Key::PageUp) == Some("PageUp"@),
        stable_key_name(Key::PageDown) == Some("PageDown"@),
        stable_key_name(Key::UpArrow) == Some("UpArrow"@),
        stable_key_name(Key::DownArrow) == Some("DownArrow"@),
        stable_key_name(Key::LeftArrow) == Some("LeftArrow"@),
        stable_key_name(Key::RightArrow) == Some("RightArrow"@),
        stable_key_name(Key::Function) == Some("Function"@),
        stable_key_name(Key::F1) == Some("F1"@),
        stable_key_name(Key::F2) == Some("F2"@),
        stable_key_name(Key::F3) == Some("F3"@),
        stable_key_name(Key::F4) == Some("F4"@),
        stable_key_name(Key::F5) == Some("F5"@),
        stable_key_name(Key::F6) == Some("F6"@),
        stable_key_name(Key::F7) == Some("F7"@),
        stable_key_name(Key::F8) == Some("F8"@),
        stable_key_name(Key::F9) == Some("F9"@),
        stable_key_name(Key::F10) == Some("F10"@),
        stable_key_name(Key::F11) == Some("F11"@),
        stable_key_name(Key::F12) == Some("F12"@),
        stable_key_name(Key::Space) == Some("Space"@),
        stable_key_name(Key::KpReturn) == Some("Return"@),
        stable_key_name(Key::Num1) == Some("1"@),
        stable_key_name(Key::Num2) == Some("2"@),
        stable_key_name(Key::Num3) == Some("3"@),
        stable_key_name(Key::Num4) == Some("4"@),
        stable_key_name(Key::Num5) == Some("5"@),
        stable_key_name(Key::Num6) == Some("6"@),
        stable_key_name(Key::Num7) == Some("7"@),
        stable_key_name(Key::Num8) == Some("8"@),
        stable_key_name(Key::Num9) == Some("9"@),
        stable_key_name(Key::Num0) == Some("0"@),
        stable_key_name(Key::NumLock) == Some("NumLock"@),
        stable_key_name(Key::KpMinus) == Some("Minus"@),
        stable_key_name(Key::KpPlus) == Some("Plus"@),
        stable_key_name(Key::KpMultiply) == Some("Multiply"@),
        stable_key_name(Key::KpDivide) == Some("Slash"@),
        stable_key_name(Key::Kp0) == Some("0"@),
        stable_key_name(Key::Kp1) == Some("1"@),
        stable_key_name(Key::Kp2) == Some("2"@),
        stable_key_name(Key::Kp3) == Some("3"@),
        stable_key_name(Key::Kp4) == Some("4"@),
        stable_key_name(Key::Kp5) == Some("5"@),
        stable_key_name(Key::Kp6) == Some("6"@),
        stable_key_name(Key::Kp7) == Some("7"@),
        stable_key_name(Key::Kp8) == Some("8"@),
        stable_key_name(Key::Kp9) == Some("9"@),
        stable_key_name(Key::KpDelete) == Some("Delete"@),
        stable_key_name(Key::PrintScreen) == Some("PrintScreen"@),
        stable_key_name(Key::ScrollLock) == Some("ScrollLock"@),
        stable_key_name(Key::Pause) == Some("Pause"@),
        stable_key_name(Key::Insert) == Some("Insert"@),
        stable_key_name(Key::Unknown(93)) == Some("JisYen"@),
        stable_key_name(Key::Unknown(94)) == Some("JisUnderscore"@),
        stable_key_name(Key::Unknown(102)) == Some("Eisu"@),
        stable_key_name(Key::Unknown(104)) == Some("Kana"@),
        stable_key_name(Key::KeyQ) == Some(seq!['Q']),
        stable_key_name(Key::KeyW) == Some(seq!['W']),
        stable_key_name(Key::KeyE) == Some(seq!['E']),
        stable_key_name(Key::KeyR) == Some(seq!['R']),
        stable_key_name(Key::KeyT) == Some(seq!['T']),
        stable_key_name(Key::KeyY) == Some(seq!['Y']),
        stable_key_name(Key::KeyU) == Some(seq!['U']),
        stable_key_name(Key::KeyI) == Some(seq!['I']),
        stable_key_name(Key::KeyO) == Some(seq!['O']),
        stable_key_name(Key::KeyP) == Some(seq!['P']),
        stable_key_name(Key::KeyA) == Some(seq!['A']),
        stable_key_name(Key::KeyS) == Some(seq!['S']),
        stable_key_name(Key::KeyD) == Some(seq!['D']),
        stable_key_name(Key::KeyF) == Some(seq!['F']),
        stable_key_name(Key::KeyG) == Some(seq!['G']),
        stable_key_name(Key::KeyH) == Some(seq!['H']),
        stable_key_name(Key::KeyJ) == Some(seq!['J']),
        stable_key_name(Key::KeyK) == Some(seq!['K']),
        stable_key_name(Key::KeyL) == Some(seq!['L']),
        stable_key_name(Key::KeyZ) == Some(seq!['Z']),
        stable_key_name(Key::KeyX) == Some(seq!['X']),
        stable_key_name(Key::KeyC) == Some(seq!['C']),
        stable_key_name(Key::KeyV) == Some(seq!['V']),
        stable_key_name(Key::KeyB) == Some(seq!['B']),
        stable_key_name(Key::KeyN) == Some(seq!['N']),
        stable_key_name(Key::KeyM) == Some(seq!['M']),
{
    reveal_strlit("KeyQ");
    assert(key_debug_name(Key::KeyQ).take(3) =~= seq!['K', 'e', 'y']);
    assert(key_debug_name(Key::KeyQ).skip(3) =~= seq!['Q']);
    reveal_strlit("KeyW");
    assert(key_debug_name(Key::KeyW).take(3) =~= seq!['K', 'e', 'y']);
    assert(key_debug_name(Key::KeyW).skip(3) =~= seq!['W']);
    reveal_strlit("KeyE");
    assert(key_debug_name(Key::KeyE).take(3) =~= seq!['K', 'e', 'y']);
    assert(key_debug_name(Key::KeyE).skip(3) =~= seq!['E']);
    reveal_strlit("KeyR");
    assert(key_debug_name(Key::KeyR).take(3) =~= seq!['K', 'e', 'y']);
    assert(key_debug_name(Key::KeyR).skip(3) =~= seq!['R']);
    reveal_strlit("KeyT");
    assert(key_debug_name(Key::KeyT).take(3) =~= seq!['K', 'e', 'y']);
    assert(key_debug_name(Key::KeyT).skip(3) =~= seq!['T']);
    reveal_strlit("KeyY");
    assert(key_debug_name(Key::KeyY).take(3) =~= seq!['K', 'e', 'y']);
    assert(key_debug_name(Key::KeyY).skip(3) =~= seq!['Y']);
    reveal_strlit("KeyU");
    assert(key_debug_name(Key::KeyU).take(3) =~= seq!['K', 'e', 'y']);
    assert(key_debug_name(Key::KeyU).skip(3) =~= seq!['U']);
    reveal_strlit("KeyI");
    assert(key_debug_name(Key::KeyI).take(3) =~= seq!['K', 'e', 'y']);
    assert(key_debug_name(Key::KeyI).skip(3) =~= seq!['I']);
    reveal_strlit("KeyO");
    assert(key_debug_name(Key::KeyO).take(3) =~= seq!['K', 'e', 'y']);
    assert(key_debug_name(Key::KeyO).skip(3) =~= seq!['O']);
    reveal_strlit("KeyP");
    assert(key_debug_name(Key::KeyP).take(3) =~= seq!['K', 'e', 'y']);
    assert(key_debug_name(Key::KeyP).skip(3) =~= seq!['P']);
    reveal_strlit("KeyA");
    assert(key_debug_name(Key::KeyA).take(3) =~= seq!['K', 'e', 'y']);
    assert(key_debug_name(Key::KeyA).skip(3) =~= seq!['A']);
    reveal_strlit("KeyS");
    assert(key_debug_name(Key::KeyS).take(3) =~= seq!['K', 'e', 'y']);
    assert(key_debug_name(Key::KeyS).skip(3) =~= seq!['S']);
    reveal_strlit("KeyD");
    assert(key_debug_name(Key::KeyD).take(3) =~= seq!['K', 'e', 'y']);
    assert(key_debug_name(Key::KeyD).skip(3) =~= seq!['D']);
    reveal_strlit("KeyF");
    assert(key_debug_name(Key::KeyF).take(3) =~= seq!['K', 'e', 'y']);
    assert(key_debug_name(Key::KeyF).skip(3) =~= seq!['F']);
    reveal_strlit("KeyG");
    assert(key_debug_name(Key::KeyG).take(3) =~= seq!['K', 'e', 'y']);
    assert(key_debug_name(Key::KeyG).skip(3) =~= seq!['G']);
    reveal_strlit("KeyH");
    assert(key_debug_name(Key::KeyH).take(3) =~= seq!['K', 'e', 'y']);
    assert(key_debug_name(Key::KeyH).skip(3) =~= seq!['H']);
    reveal_strlit("KeyJ");
    assert(key_debug_name(Key::KeyJ).take(3) =~= seq!['K', 'e', 'y']);
    assert(key_debug_name(Key::KeyJ).skip(3) =~= seq!['J']);
    reveal_strlit("KeyK");
    assert(key_debug_name(Key::KeyK).take(3) =~= seq!['K', 'e', 'y']);
    assert(key_debug_name(Key::KeyK).skip(3) =~= seq!['K']);
    reveal_strlit("KeyL");
    assert(key_debug_name(Key::KeyL).take(3) =~= seq!['K', 'e', 'y']);
    assert(key_debug_name(Key::KeyL).skip(3) =~= seq!['L']);
    reveal_strlit("KeyZ");
    assert(key_debug_name(Key::KeyZ).take(3) =~= seq!['K', 'e', 'y']);
    assert(key_debug_name(Key::KeyZ).skip(3) =~= seq!['Z']);
    reveal_strlit("KeyX");
    assert(key_debug_name(Key::KeyX).take(3) =~= seq!['K', 'e', 'y']);
    assert(key_debug_name(Key::KeyX).skip(3) =~= seq!['X']);
    reveal_strlit("KeyC");
    assert(key_debug_name(Key::KeyC).take(3) =~= seq!['K', 'e', 'y']);
    assert(key_debug_name(Key::KeyC).skip(3) =~= seq!['C']);
    reveal_strlit("KeyV");
    assert(key_debug_name(Key::KeyV).take(3) =~= seq!['K', 'e', 'y']);
    assert(key_debug_name(Key::KeyV).skip(3) =~= seq!['V']);
    reveal_strlit("KeyB");
    assert(key_debug_name(Key::KeyB).take(3) =~= seq!['K', 'e', 'y']);
    assert(key_debug_name(Key::KeyB).skip(3) =~= seq!['B']);
    reveal_strlit("KeyN");
    assert(key_debug_name(Key::KeyN).take(3) =~= seq!['K', 'e', 'y']);
    assert(key_debug_name(Key::KeyN).skip(3) =~= seq!['N']);
    reveal_strlit("KeyM");
    assert(key_debug_name(Key::KeyM).take(3) =~= seq!['K', 'e', 'y']);
    assert(key_debug_name(Key::KeyM).skip(3) =~= seq!['M']);
}

/// The right-hand modifier of each pair is labelled `Right` followed by the
/// label of the left-hand one, and the left-hand label does not itself start
/// with `Right`: each label names the side its key is on.
pub proof fn right_modifiers_are_labelled_right()
    ensures
        stable_key_name(Key::ShiftLeft) matches Some(left) && stable_key_name(Key::ShiftRight) == Some("Right"@ + left) && !(left.len() >= 5 && left.take(5) == "Right"@),
        stable_key_name(Key::ControlLeft) matches Some(left) && stable_key_name(Key::ControlRight) == Some("Right"@ + left) && !(left.len() >= 5 && left.take(5) == "Right"@),
        stable_key_name(Key::MetaLeft) matches Some(left) && stable_key_name(Key::MetaRight) == Some("Right"@ + left) && !(left.len() >= 5 && left.take(5) == "Right"@),
        stable_key_name(Key::Alt) matches Some(left) && stable_key_name(Key::AltGr) == Some("Right"@ + left) && !(left.len() >= 5 && left.take(5) == "Right"@),
{
    reveal_strlit("Right");
    reveal_strlit("Shift");
    reveal_strlit("RightShift");
    assert("RightShift"@ =~= "Right"@ + "Shift"@);
    assert("Shift"@.take(5)[0] != "Right"@[0]);
    reveal_strlit("Control");
    reveal_strlit("RightControl");
    assert("RightControl"@ =~= "Right"@ + "Control"@);
    assert("Control"@.take(5)[0] != "Right"@[0]);
    reveal_strlit("Command");
    reveal_strlit("RightCommand");
    assert("RightCommand"@ =~= "Right"@ + "Command"@);
    assert("Command"@.take(5)[0] != "Right"@[0]);
    reveal_strlit("Option");
    reveal_strlit("RightOption");
    assert("RightOption"@ =~= "Right"@ + "Option"@);
    assert("Option"@.take(5)[0] != "Right"@[0]);
}

/// A key shows under its fixed label whatever name its event carries, with
/// its `Debug` text as raw name.
pub proof fn fixed_label_wins_over_event_name(key: Key, event_name: Option<Seq<char>>)
    requires
        stable_key_name(key) is Some,
    ensures
        key_names(event_name, key) == (stable_key_name(key)->0, Some(key_debug_name(key))),
{
}

/// The four key codes found only on JIS keyboards (93 yen, 94 underscore,
/// 102 eisu, 104 kana) tell JIS whatever name their event carries, and a
/// layout updated with one of them is JIS from any layout.
pub proof fn jis_key_codes_tell_jis(code: u32, event_name: Option<Seq<char>>, current: KeyboardLayout)
    requires
        code == 93 || code == 94 || code == 102 || code == 104,
    ensures
        inferred_layout(Key::Unknown(code), event_name) == Some(KeyboardLayout::Jis),
        next_layout(current, inferred_layout(Key::Unknown(code), event_name)) == KeyboardLayout::Jis,
{
}

/// An unknown key code has a fixed label exactly when, on an event without
/// a name, it tells the JIS layout: the JIS-only keys are the labelled
/// unknown codes.
pub proof fn labelled_unknown_codes_are_jis_keys(code: u32)
    ensures
        (stable_key_name(Key::Unknown(code)) is Some) == (inferred_layout(Key::Unknown(code), None)
            == Some(KeyboardLayout::Jis)),
{
}

} // verus!
