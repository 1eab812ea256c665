use overlay_effect::app_state::AppState;
use overlay_effect::menu::{
    chapter_toggled_events, menu_action, menu_id, restarted_events, settings_change_events,
    syncs_tray, toggle_keyboard_setting, toggle_mouse_setting, tray_check_state,
    tray_menu_entries, AppEvent, MenuAction,
};
use overlay_effect::state::Settings;

const ACTIONS: [MenuAction; 12] = [
    MenuAction::ToggleOverlay,
    MenuAction::ToggleMouse,
    MenuAction::ToggleKeyboard,
    MenuAction::OpenChapterSetting,
    MenuAction::ToggleChapter,
    MenuAction::PreviousChapter,
    MenuAction::NextChapter,
    MenuAction::RestartChapter,
    MenuAction::ToggleChapterPause,
    MenuAction::CopyChapterLaps,
    MenuAction::RetryInputMonitoring,
    MenuAction::Quit,
];

#[test]
fn menu_ids() {
    assert_eq!(menu_action("toggle-overlay"), Some(MenuAction::ToggleOverlay));
    assert_eq!(menu_action("next-chapter"), Some(MenuAction::NextChapter));
    assert_eq!(menu_action("quit"), Some(MenuAction::Quit));
    assert_eq!(menu_action("toggle-chapter-pause"), Some(MenuAction::ToggleChapterPause));
    assert_eq!(menu_action("Quit"), None);
    assert_eq!(menu_action(""), None);
    assert_eq!(menu_id(MenuAction::CopyChapterLaps), "copy-chapter-laps");
}

#[test]
fn menu_ids_round_trip() {
    for a in ACTIONS {
        assert_eq!(menu_action(menu_id(a)), Some(a));
    }
}

#[test]
fn switches_sync_the_tray() {
    let synced: Vec<MenuAction> = ACTIONS.iter().copied().filter(|a| syncs_tray(*a)).collect();
    assert_eq!(
        synced,
        vec![MenuAction::ToggleOverlay, MenuAction::ToggleMouse, MenuAction::ToggleKeyboard, MenuAction::ToggleChapter]
    );
}

#[test]
fn tray_entries_reflect_state() {
    let settings = Settings { enable_mouse: false, enable_keyboard: true, enable_chapter: true, timer_paused: false };
    let entries = tray_menu_entries(settings, true);
    let view: Vec<(MenuAction, String, Option<bool>)> =
        entries.into_iter().map(|e| (e.action, e.label, e.checked)).collect();
    assert_eq!(
        view,
        vec![
            (MenuAction::ToggleOverlay, "オーバーレイを表示".to_string(), Some(true)),
            (MenuAction::ToggleMouse, "マウスエフェクト".to_string(), Some(false)),
            (MenuAction::ToggleKeyboard, "キーボード表示".to_string(), Some(true)),
            (MenuAction::RetryInputMonitoring, "入力監視を再試行".to_string(), None),
            (MenuAction::Quit, "終了する".to_string(), None),
        ]
    );
    let checks = tray_check_state(settings, false);
    assert!(!checks.overlay_visible && !checks.mouse_enabled && checks.keyboard_enabled && checks.chapter_enabled);
}

fn names(events: &[AppEvent]) -> Vec<&'static str> {
    events.iter().map(|e| e.name()).collect()
}

#[test]
fn settings_events_only_for_changes() {
    let a = Settings::default();
    assert!(settings_change_events(&a, &a).is_empty());
    let b = Settings { enable_mouse: false, timer_paused: true, ..a };
    let events = settings_change_events(&a, &b);
    assert_eq!(names(&events), vec!["change-mouse-enable", "change-timer-paused"]);
    assert!(matches!(events[0], AppEvent::MouseEnable(false)));
    assert!(matches!(events[1], AppEvent::TimerPaused(true)));
    let c = Settings { enable_keyboard: false, enable_chapter: true, ..a };
    assert_eq!(names(&settings_change_events(&a, &c)), vec!["change-keyboard-enable", "change-chapter-enable"]);
}

#[test]
fn toggles_flip_and_twice_restore() {
    let mut s = Settings::default();
    assert!(!toggle_mouse_setting(&mut s));
    assert!(!toggle_keyboard_setting(&mut s));
    assert!(!s.enable_mouse && !s.enable_keyboard);
    assert!(toggle_mouse_setting(&mut s));
    assert!(toggle_keyboard_setting(&mut s));
    assert_eq!(s, Settings::default());
}

#[test]
fn chapter_events() {
    let s = Settings { enable_chapter: true, timer_paused: false, ..Settings::default() };
    let e = chapter_toggled_events(&s);
    assert!(matches!(e[..], [AppEvent::ChapterEnable(true), AppEvent::TimerPaused(false)]));
    let e = restarted_events(0, &s);
    assert_eq!(
        names(&e),
        vec!["change-chapter-index", "change-timer-paused", "change-chapter-enable", "change-chapter-enable"]
    );
    assert!(matches!(e[2..], [AppEvent::ChapterEnable(false), AppEvent::ChapterEnable(true)]));
    let off = Settings::default();
    assert!(matches!(restarted_events(3, &off)[..], [AppEvent::ChapterIndex(3), AppEvent::TimerPaused(false)]));
}

#[test]
fn app_state_overlay_toggle() {
    let mut app = AppState::default();
    assert!(app.overlay_visible);
    assert_eq!(app.monitoring.attempt, 0);
    assert!(!app.toggle_overlay_visibility());
    assert!(!app.tray_checks().overlay_visible);
    assert!(app.toggle_overlay_visibility());
    assert!(app.tray_checks().mouse_enabled);
}
