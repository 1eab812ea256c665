use overlay_effect::keys::{
    infer_keyboard_layout, is_printable_key_name, key_debug_text, key_name_for_event,
    normalize_key_raw_name, stable_key_name_from_physical_key, update_keyboard_layout, Key,
    KeyboardLayout,
};

#[test]
fn fixed_names() {
    let cases = [
        (Key::ShiftLeft, "Shift"),
        (Key::ShiftRight, "RightShift"),
        (Key::Alt, "Option"),
        (Key::AltGr, "RightOption"),
        (Key::MetaLeft, "Command"),
        (Key::Backspace, "Delete"),
        (Key::KpReturn, "Return"),
        (Key::Num0, "0"),
        (Key::Kp7, "7"),
        (Key::KpDivide, "Slash"),
        (Key::F12, "F12"),
        (Key::Unknown(93), "JisYen"),
        (Key::Unknown(94), "JisUnderscore"),
        (Key::Unknown(102), "Eisu"),
        (Key::Unknown(104), "Kana"),
        (Key::KeyA, "A"),
        (Key::KeyZ, "Z"),
    ];
    for (key, name) in cases {
        assert_eq!(stable_key_name_from_physical_key(key), Some(name.to_string()), "{:?}", key);
    }
}

#[test]
fn keys_without_fixed_name() {
    for key in [Key::BackQuote, Key::Minus, Key::Slash, Key::IntlBackslash, Key::Unknown(5), Key::Comma] {
        assert_eq!(stable_key_name_from_physical_key(key), None, "{:?}", key);
    }
}

#[test]
fn debug_text_matches_debug() {
    for key in [Key::KeyQ, Key::Unknown(7), Key::Unknown(4294967295), Key::KpDelete, Key::Function] {
        assert_eq!(key_debug_text(key), format!("{:?}", key));
    }
}

#[test]
fn raw_name_normalization() {
    assert_eq!(normalize_key_raw_name("Alt"), "Option");
    assert_eq!(normalize_key_raw_name("Meta"), "Command");
    assert_eq!(normalize_key_raw_name("Super"), "Command");
    assert_eq!(normalize_key_raw_name("a"), "A");
    assert_eq!(normalize_key_raw_name("z"), "Z");
    assert_eq!(normalize_key_raw_name("1"), "1");
    assert_eq!(normalize_key_raw_name(";"), ";");
    assert_eq!(normalize_key_raw_name("ab"), "ab");
    assert_eq!(normalize_key_raw_name("é"), "é");
    assert_eq!(normalize_key_raw_name(""), "");
}

#[test]
fn printable_names() {
    assert!(!is_printable_key_name(""));
    assert!(is_printable_key_name("a"));
    assert!(is_printable_key_name("¥"));
    assert!(!is_printable_key_name("\u{7}"));
    assert!(!is_printable_key_name("a\u{7f}"));
    assert!(!is_printable_key_name("\u{9f}"));
    assert!(is_printable_key_name("\u{a0}"));
    assert!(!is_printable_key_name("\u{f704}"));
    assert!(!is_printable_key_name("\u{e000}"));
    assert!(is_printable_key_name("\u{f900}"));
}

#[test]
fn event_names() {
    let grave = "`".to_string();
    assert_eq!(key_name_for_event(Some(&grave), Key::BackQuote), ("`".to_string(), Some("`".to_string())));
    assert_eq!(key_name_for_event(None, Key::BackQuote), ("BackQuote".to_string(), None));
    let glyph = "\u{f704}".to_string();
    assert_eq!(key_name_for_event(Some(&glyph), Key::Unknown(200)), ("Unknown(200)".to_string(), None));
    let a = "a".to_string();
    assert_eq!(key_name_for_event(Some(&a), Key::KeyA), ("A".to_string(), Some("KeyA".to_string())));
    let alt = "Alt".to_string();
    assert_eq!(key_name_for_event(Some(&alt), Key::Minus), ("Option".to_string(), Some("Alt".to_string())));
    let small = "q".to_string();
    assert_eq!(key_name_for_event(Some(&small), Key::Equal), ("Q".to_string(), Some("q".to_string())));
}

#[test]
fn layout_inference() {
    assert_eq!(infer_keyboard_layout(Key::Unknown(94), None), Some(KeyboardLayout::Jis));
    let yen = "¥".to_string();
    let wide_yen = "￥".to_string();
    let backslash = "\\".to_string();
    assert_eq!(infer_keyboard_layout(Key::KeyA, Some(&yen)), Some(KeyboardLayout::Jis));
    assert_eq!(infer_keyboard_layout(Key::BackSlash, Some(&wide_yen)), Some(KeyboardLayout::Jis));
    assert_eq!(infer_keyboard_layout(Key::BackSlash, Some(&backslash)), Some(KeyboardLayout::Us));
    assert_eq!(infer_keyboard_layout(Key::KeyA, Some(&backslash)), None);
    assert_eq!(infer_keyboard_layout(Key::BackSlash, None), None);
}

#[test]
fn layout_detection_keeps_jis() {
    let backslash = "\\".to_string();
    let mut layout = KeyboardLayout::Unknown;
    assert_eq!(update_keyboard_layout(&mut layout, Key::KeyA, None), KeyboardLayout::Unknown);
    assert_eq!(update_keyboard_layout(&mut layout, Key::BackSlash, Some(&backslash)), KeyboardLayout::Us);
    assert_eq!(layout, KeyboardLayout::Us);
    assert_eq!(update_keyboard_layout(&mut layout, Key::KeyA, None), KeyboardLayout::Us);
    assert_eq!(update_keyboard_layout(&mut layout, Key::Unknown(102), None), KeyboardLayout::Jis);
    assert_eq!(update_keyboard_layout(&mut layout, Key::BackSlash, Some(&backslash)), KeyboardLayout::Jis);
    assert_eq!(layout, KeyboardLayout::Jis);
}
