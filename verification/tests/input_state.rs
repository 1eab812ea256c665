use overlay_effect::input::{
    Button, ButtonPosition, KeyState, KeyTracker, MouseEvent, MouseEventType, PointerTracker,
};
use overlay_effect::keys::{Key, KeyboardLayout};

#[test]
fn press_and_release_of_a_key() {
    let mut t = KeyTracker::new();
    let a = "a".to_string();
    let rep = t.key_pressed(Key::KeyA, Some(&a), false).unwrap();
    assert_eq!(rep.event.name, "A");
    assert_eq!(rep.event.state, KeyState::Down);
    assert_eq!(rep.event.state.as_str(), "DOWN");
    assert_eq!(rep.event.keyboard_layout, KeyboardLayout::Unknown);
    assert_eq!(rep.event.raw_key.name, Some("A".to_string()));
    assert_eq!(rep.event.raw_key.name_raw, Some("KeyA".to_string()));
    assert_eq!(rep.down, vec!["A".to_string()]);
    let rep = t.key_released(Key::KeyA, Some(&a), false).unwrap();
    assert_eq!(rep.event.name, "A");
    assert_eq!(rep.event.state.as_str(), "UP");
    assert!(rep.down.is_empty());
    assert!(t.down_names().is_empty());
}

#[test]
fn release_uses_the_label_of_the_press() {
    let mut t = KeyTracker::new();
    let grave = "`".to_string();
    let yen = "¥".to_string();
    t.key_pressed(Key::BackQuote, Some(&grave), false).unwrap();
    let rep = t.key_released(Key::BackQuote, Some(&yen), false).unwrap();
    assert_eq!(rep.event.name, "`");
    assert_eq!(rep.event.raw_key.name_raw, Some("¥".to_string()));
    assert_eq!(rep.event.keyboard_layout, KeyboardLayout::Jis);
    assert!(rep.down.is_empty());
}

#[test]
fn release_without_press_uses_its_own_label() {
    let mut t = KeyTracker::new();
    let rep = t.key_released(Key::Minus, None, false).unwrap();
    assert_eq!(rep.event.name, "Minus");
    assert_eq!(rep.event.raw_key.name_raw, Some("Minus".to_string()));
    assert!(rep.down.is_empty());
}

#[test]
fn several_keys_held() {
    let mut t = KeyTracker::new();
    t.key_pressed(Key::ShiftLeft, None, false).unwrap();
    let rep = t.key_pressed(Key::KeyB, None, false).unwrap();
    let mut down = rep.down.clone();
    down.sort();
    assert_eq!(down, vec!["B".to_string(), "Shift".to_string()]);
    t.key_pressed(Key::KeyB, None, false).unwrap();
    assert_eq!(t.down_names().len(), 2);
    let rep = t.key_released(Key::ShiftLeft, None, false).unwrap();
    assert_eq!(rep.down, vec!["B".to_string()]);
}

#[test]
fn keys_sharing_a_label() {
    let mut t = KeyTracker::new();
    t.key_pressed(Key::Return, None, false).unwrap();
    t.key_pressed(Key::KpReturn, None, false).unwrap();
    assert_eq!(t.down_names(), vec!["Return".to_string()]);
    let rep = t.key_released(Key::KpReturn, None, false).unwrap();
    assert!(rep.down.is_empty());
}

#[test]
fn paused_input_is_ignored() {
    let mut t = KeyTracker::new();
    assert!(t.key_pressed(Key::Unknown(93), None, true).is_none());
    assert!(t.down_names().is_empty());
    let rep = t.key_pressed(Key::KeyC, None, false).unwrap();
    assert_eq!(rep.event.keyboard_layout, KeyboardLayout::Unknown);
    assert!(t.key_released(Key::KeyC, None, true).is_none());
    assert_eq!(t.down_names(), vec!["C".to_string()]);
}

#[test]
fn pointer_drag_only_while_button_down() {
    let mut p = PointerTracker::new();
    assert_eq!(p.mouse_moved(10, 20), None);
    let down = p.button_pressed(Button::Left);
    assert_eq!(down, MouseEvent { position: ButtonPosition::Left, event_type: MouseEventType::Down, x: 10, y: 20 });
    assert_eq!(down.position.as_str(), "left");
    assert_eq!(down.event_type.as_str(), "down");
    let drag = p.mouse_moved(15, 25).unwrap();
    assert_eq!(drag.event_type.as_str(), "drag");
    assert_eq!((drag.x, drag.y), (15, 25));
    let up = p.button_released(Button::Left);
    assert_eq!(up, MouseEvent { position: ButtonPosition::Left, event_type: MouseEventType::Up, x: 15, y: 25 });
    assert_eq!(p.mouse_moved(30, 30), None);
}

#[test]
fn pointer_button_names() {
    let mut p = PointerTracker::new();
    assert_eq!(p.button_pressed(Button::Right).position.as_str(), "right");
    assert_eq!(p.button_released(Button::Middle).position.as_str(), "other");
    assert_eq!(p.button_pressed(Button::Unknown(4)).position, ButtonPosition::Other);
    let drag = p.mouse_moved(1, 2).unwrap();
    assert_eq!(drag.position, ButtonPosition::Left);
}
