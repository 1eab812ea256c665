//! The tray menu: its entries, the action of each entry id, and the events
//! the overlay is told of after a change.
use crate::state::Settings;
use crate::text::{same_text, string_of};
use vstd::prelude::*;

verus! {

/// What a tray menu entry does.
#[derive(Clone, Copy, Debug, PartialEq, Eq, Structural)]
pub enum MenuAction {
    ToggleOverlay,
    ToggleMouse,
    ToggleKeyboard,
    OpenChapterSetting,
    ToggleChapter,
    PreviousChapter,
    NextChapter,
    RestartChapter,
    ToggleChapterPause,
    CopyChapterLaps,
    RetryInputMonitoring,
    Quit,
}

/// The id of the menu entry of an action.
pub open spec fn action_id(action: MenuAction) -> Seq<char> {
    match action {
        MenuAction::ToggleOverlay => "toggle-overlay"@,
        MenuAction::ToggleMouse => "toggle-mouse"@,
        MenuAction::ToggleKeyboard => "toggle-keyboard"@,
        MenuAction::OpenChapterSetting => "open-chapter-setting"@,
        MenuAction::ToggleChapter => "toggle-chapter"@,
        MenuAction::PreviousChapter => "previous-chapter"@,
        MenuAction::NextChapter => "next-chapter"@,
        MenuAction::RestartChapter => "restart-chapter"@,
        MenuAction::ToggleChapterPause => "toggle-chapter-pause"@,
        MenuAction::CopyChapterLaps => "copy-chapter-laps"@,
        MenuAction::RetryInputMonitoring => "retry-input-monitoring"@,
        MenuAction::Quit => "quit"@,
    }
}

/// The action of a menu entry id; `None` for an unknown id.
pub open spec fn action_of_id(id: Seq<char>) -> Option<MenuAction> {
    if id == "toggle-overlay"@ {
        Some(MenuAction::ToggleOverlay)
    } else if id == "toggle-mouse"@ {
        Some(MenuAction::ToggleMouse)
    } else if id == "toggle-keyboard"@ {
        Some(MenuAction::ToggleKeyboard)
    } else if id == "open-chapter-setting"@ {
        Some(MenuAction::OpenChapterSetting)
    } else if id == "toggle-chapter"@ {
        Some(MenuAction::ToggleChapter)
    } else if id == "previous-chapter"@ {
        Some(MenuAction::PreviousChapter)
    } else if id == "next-chapter"@ {
        Some(MenuAction::NextChapter)
    } else if id == "restart-chapter"@ {
        Some(MenuAction::RestartChapter)
    } else if id == "toggle-chapter-pause"@ {
        Some(MenuAction::ToggleChapterPause)
    } else if id == "copy-chapter-laps"@ {
        Some(MenuAction::CopyChapterLaps)
    } else if id == "retry-input-monitoring"@ {
        Some(MenuAction::RetryInputMonitoring)
    } else if id == "quit"@ {
        Some(MenuAction::Quit)
    } else {
        None
    }
}

/// The id of the menu entry of an action (see `action_id`).
pub fn menu_id(action: MenuAction) -> (r: &'static str)
    ensures
        r@ == action_id(action),
{
    match action {
        MenuAction::ToggleOverlay => "toggle-overlay",
        MenuAction::ToggleMouse => "toggle-mouse",
        MenuAction::ToggleKeyboard => "toggle-keyboard",
        MenuAction::OpenChapterSetting => "open-chapter-setting",
        MenuAction::ToggleChapter => "toggle-chapter",
        MenuAction::PreviousChapter => "previous-chapter",
        MenuAction::NextChapter => "next-chapter",
        MenuAction::RestartChapter => "restart-chapter",
        MenuAction::ToggleChapterPause => "toggle-chapter-pause",
        MenuAction::CopyChapterLaps => "copy-chapter-laps",
        MenuAction::RetryInputMonitoring => "retry-input-monitoring",
        MenuAction::Quit => "quit",
    }
}

/// The action of a menu entry id (see `action_of_id`).
pub fn menu_action(id: &str) -> (r: Option<MenuAction>)
    ensures
        r == action_of_id(id@),
{
    if same_text(id, "toggle-overlay") {
        Some(MenuAction::ToggleOverlay)
    } else if same_text(id, "toggle-mouse") {
        Some(MenuAction::ToggleMouse)
    } else if same_text(id, "toggle-keyboard") {
        Some(MenuAction::ToggleKeyboard)
    } else if same_text(id, "open-chapter-setting") {
        Some(MenuAction::OpenChapterSetting)
    } else if same_text(id, "toggle-chapter") {
        Some(MenuAction::ToggleChapter)
    } else if same_text(id, "previous-chapter") {
        Some(MenuAction::PreviousChapter)
    } else if same_text(id, "next-chapter") {
        Some(MenuAction::NextChapter)
    } else if same_text(id, "restart-chapter") {
        Some(MenuAction::RestartChapter)
    } else if same_text(id, "toggle-chapter-pause") {
        Some(MenuAction::ToggleChapterPause)
    } else if same_text(id, "copy-chapter-laps") {
        Some(MenuAction::CopyChapterLaps)
    } else if same_text(id, "retry-input-monitoring") {
        Some(MenuAction::RetryInputMonitoring)
    } else if same_text(id, "quit") {
        Some(MenuAction::Quit)
    } else {
        None
    }
}

/// Every action is found again from the id of its entry.
pub proof fn menu_ids_round_trip(action: MenuAction)
    ensures
        action_of_id(action_id(action)) == Some(action),
{
    reveal_strlit("toggle-overlay");
    reveal_strlit("toggle-mouse");
    reveal_strlit("toggle-keyboard");
    reveal_strlit("open-chapter-setting");
    reveal_strlit("toggle-chapter");
    reveal_strlit("previous-chapter");
    reveal_strlit("next-chapter");
    reveal_strlit("restart-chapter");
    reveal_strlit("toggle-chapter-pause");
    reveal_strlit("copy-chapter-laps");
    reveal_strlit("retry-input-monitoring");
    reveal_strlit("quit");
    let id = action_id(action);
    assert("toggle-mouse"@.len() != "toggle-overlay"@.len());
    assert("toggle-keyboard"@.len() != "toggle-overlay"@.len());
    assert("toggle-keyboard"@.len() != "toggle-mouse"@.len());
    assert("open-chapter-setting"@.len() != "toggle-overlay"@.len());
    assert("open-chapter-setting"@.len() != "toggle-mouse"@.len());
    assert("open-chapter-setting"@.len() != "toggle-keyboard"@.len());
    assert("toggle-chapter"@[7] != "toggle-overlay"@[7]);
    assert("toggle-chapter"@.len() != "toggle-mouse"@.len());
    assert("toggle-chapter"@.len() != "toggle-keyboard"@.len());
    assert("toggle-chapter"@.len() != "open-chapter-setting"@.len());
    assert("previous-chapter"@.len() != "toggle-overlay"@.len());
    assert("previous-chapter"@.len() != "toggle-mouse"@.len());
    assert("previous-chapter"@.len() != "toggle-keyboard"@.len());
    assert("previous-chapter"@.len() != "open-chapter-setting"@.len());
    assert("previous-chapter"@.len() != "toggle-chapter"@.len());
    assert("next-chapter"@.len() != "toggle-overlay"@.len());
    assert("next-chapter"@[0] != "toggle-mouse"@[0]);
    assert("next-chapter"@.len() != "toggle-keyboard"@.len());
    assert("next-chapter"@.len() != "open-chapter-setting"@.len());
    assert("next-chapter"@.len() != "toggle-chapter"@.len());
    assert("next-chapter"@.len() != "previous-chapter"@.len());
    assert("restart-chapter"@.len() != "toggle-overlay"@.len());
    assert("restart-chapter"@.len() != "toggle-mouse"@.len());
    assert("restart-chapter"@[0] != "toggle-keyboard"@[0]);
    assert("restart-chapter"@.len() != "open-chapter-setting"@.len());
    assert("restart-chapter"@.len() != "toggle-chapter"@.len());
    assert("restart-chapter"@.len() != "previous-chapter"@.len());
    assert("restart-chapter"@.len() != "next-chapter"@.len());
    assert("toggle-chapter-pause"@.len() != "toggle-overlay"@.len());
    assert("toggle-chapter-pause"@.len() != "toggle-mouse"@.len());
    assert("toggle-chapter-pause"@.len() != "toggle-keyboard"@.len());
    assert("toggle-chapter-pause"@[0] != "open-chapter-setting"@[0]);
    assert("toggle-chapter-pause"@.len() != "toggle-chapter"@.len());
    assert("toggle-chapter-pause"@.len() != "previous-chapter"@.len());
    assert("toggle-chapter-pause"@.len() != "next-chapter"@.len());
    assert("toggle-chapter-pause"@.len() != "restart-chapter"@.len());
    assert("copy-chapter-laps"@.len() != "toggle-overlay"@.len());
    assert("copy-chapter-laps"@.len() != "toggle-mouse"@.len());
    assert("copy-chapter-laps"@.len() != "toggle-keyboard"@.len());
    assert("copy-chapter-laps"@.len() != "open-chapter-setting"@.len());
    assert("copy-chapter-laps"@.len() != "toggle-chapter"@.len());
    assert("copy-chapter-laps"@.len() != "previous-chapter"@.len());
    assert("copy-chapter-laps"@.len() != "next-chapter"@.len());
    assert("copy-chapter-laps"@.len() != "restart-chapter"@.len());
    assert("copy-chapter-laps"@.len() != "toggle-chapter-pause"@.len());
    assert("retry-input-monitoring"@.len() != "toggle-overlay"@.len());
    assert("retry-input-monitoring"@.len() != "toggle-mouse"@.len());
    assert("retry-input-monitoring"@.len() != "toggle-keyboard"@.len());
    assert("retry-input-monitoring"@.len() != "open-chapter-setting"@.len());
    assert("retry-input-monitoring"@.len() != "toggle-chapter"@.len());
    assert("retry-input-monitoring"@.len() != "previous-chapter"@.len());
    assert("retry-input-monitoring"@.len() != "next-chapter"@.len());
    assert("retry-input-monitoring"@.len() != "restart-chapter"@.len());
    assert("retry-input-monitoring"@.len() != "toggle-chapter-pause"@.len());
    assert("retry-input-monitoring"@.len() != "copy-chapter-laps"@.len());
    assert("quit"@.len() != "toggle-overlay"@.len());
    assert("quit"@.len() != "toggle-mouse"@.len());
    assert("quit"@.len() != "toggle-keyboard"@.len());
    assert("quit"@.len() != "open-chapter-setting"@.len());
    assert("quit"@.len() != "toggle-chapter"@.len());
    assert("quit"@.len() != "previous-chapter"@.len());
    assert("quit"@.len() != "next-chapter"@.len());
    assert("quit"@.len() != "restart-chapter"@.len());
    assert("quit"@.len() != "toggle-chapter-pause"@.len());
    assert("quit"@.len() != "copy-chapter-laps"@.len());
    assert("quit"@.len() != "retry-input-monitoring"@.len());
}

/// Whether the tray's check marks are brought up to date after the action:
/// the four switches shown with a check mark.
pub open spec fn action_syncs_tray(action: MenuAction) -> bool {
    match action {
        MenuAction::ToggleOverlay | MenuAction::ToggleMouse | MenuAction::ToggleKeyboard
        | MenuAction::ToggleChapter => true,
        _ => false,
    }
}

/// Whether the tray's check marks are brought up to date after the action
/// (see `action_syncs_tray`).
pub fn syncs_tray(action: MenuAction) -> (r: bool)
    ensures
        r == action_syncs_tray(action),
{
    match action {
        MenuAction::ToggleOverlay | MenuAction::ToggleMouse | MenuAction::ToggleKeyboard
        | MenuAction::ToggleChapter => true,
        _ => false,
    }
}

/// The check marks of the tray.
#[derive(Clone, Copy, Debug, PartialEq, Eq, Structural)]
pub struct TrayCheckState {
    pub overlay_visible: bool,
    pub mouse_enabled: bool,
    pub keyboard_enabled: bool,
    pub chapter_enabled: bool,
}

/// The check marks that reflect the state: each switch checked exactly
/// when it is on.
pub fn tray_check_state(settings: Settings, overlay_visible: bool) -> (r: TrayCheckState)
    ensures
        r.overlay_visible == overlay_visible,
        r.mouse_enabled == settings.enable_mouse,
        r.keyboard_enabled == settings.enable_keyboard,
        r.chapter_enabled == settings.enable_chapter,
{
    TrayCheckState {
        overlay_visible,
        mouse_enabled: settings.enable_mouse,
        keyboard_enabled: settings.enable_keyboard,
        chapter_enabled: settings.enable_chapter,
    }
}

/// An entry of the tray menu: its action, label, and check mark where it
/// is a switch.
#[derive(Debug)]
pub struct MenuEntry {
    pub action: MenuAction,
    pub label: String,
    pub checked: Option<bool>,
}

/// The tray menu, top to bottom: the overlay, mouse and keyboard switches
/// (checked as the state is), retrying input monitoring, and quitting. The
/// chapter entries are not shown.
pub open spec fn tray_menu(settings: Settings, overlay_visible: bool) -> Seq<(MenuAction, Seq<char>, Option<bool>)> {
    seq![
        (MenuAction::ToggleOverlay, "オーバーレイを表示"@, Some(overlay_visible)),
        (MenuAction::ToggleMouse, "マウスエフェクト"@, Some(settings.enable_mouse)),
        (MenuAction::ToggleKeyboard, "キーボード表示"@, Some(settings.enable_keyboard)),
        (MenuAction::RetryInputMonitoring, "入力監視を再試行"@, None),
        (MenuAction::Quit, "終了する"@, None),
    ]
}

/// The view of a menu entry.
pub open spec fn entry_view(e: MenuEntry) -> (MenuAction, Seq<char>, Option<bool>) {
    (e.action, e.label@, e.checked)
}

fn entry(action: MenuAction, label: &str, checked: Option<bool>) -> (r: MenuEntry)
    ensures
        entry_view(r) == (action, label@, checked),
{
    MenuEntry { action, label: string_of(label), checked }
}

/// The entries of the tray menu (see `tray_menu`).
pub fn tray_menu_entries(settings: Settings, overlay_visible: bool) -> (r: Vec<MenuEntry>)
    ensures
        r@.map_values(|e: MenuEntry| entry_view(e)) == tray_menu(settings, overlay_visible),
{
    let mut r: Vec<MenuEntry> = Vec::new();
    r.push(entry(MenuAction::ToggleOverlay, "オーバーレイを表示", Some(overlay_visible)));
    r.push(entry(MenuAction::ToggleMouse, "マウスエフェクト", Some(settings.enable_mouse)));
    r.push(entry(MenuAction::ToggleKeyboard, "キーボード表示", Some(settings.enable_keyboard)));
    r.push(entry(MenuAction::RetryInputMonitoring, "入力監視を再試行", None));
    r.push(entry(MenuAction::Quit, "終了する", None));
    assert(r@.map_values(|e: MenuEntry| entry_view(e)) =~= tray_menu(settings, overlay_visible));
    r
}

/// An event the overlay is told of, with its value.
#[derive(Debug)]
pub enum AppEvent {
    MouseEnable(bool),
    KeyboardEnable(bool),
    ChapterEnable(bool),
    TimerPaused(bool),
    ChapterIndex(usize),
    ChapterText(String),
    OverlayVisible(bool),
}

impl AppEvent {
    /// The name under which the overlay listens for the event.
    pub open spec fn spec_name(self) -> Seq<char> {
        match self {
            AppEvent::MouseEnable(_) => "change-mouse-enable"@,
            AppEvent::KeyboardEnable(_) => "change-keyboard-enable"@,
            AppEvent::ChapterEnable(_) => "change-chapter-enable"@,
            AppEvent::TimerPaused(_) => "change-timer-paused"@,
            AppEvent::ChapterIndex(_) => "change-chapter-index"@,
            AppEvent::ChapterText(_) => "change-chapter-text"@,
            AppEvent::OverlayVisible(_) => "change-overlay-visible"@,
        }
    }

    /// The name of the event (see `spec_name`).
    pub fn name(&self) -> (r: &'static str)
        ensures
            r@ == self.spec_name(),
    {
        match self {
            AppEvent::MouseEnable(_) => "change-mouse-enable",
            AppEvent::KeyboardEnable(_) => "change-keyboard-enable",
            AppEvent::ChapterEnable(_) => "change-chapter-enable",
            AppEvent::TimerPaused(_) => "change-timer-paused",
            AppEvent::ChapterIndex(_) => "change-chapter-index",
            AppEvent::ChapterText(_) => "change-chapter-text",
            AppEvent::OverlayVisible(_) => "change-overlay-visible",
        }
    }
}

/// The events of a change of settings: one for each switch that changed,
/// with its new value, in the order mouse, keyboard, chapter, timer.
pub open spec fn settings_events(previous: Settings, next: Settings) -> Seq<AppEvent> {
    let a = if previous.enable_mouse != next.enable_mouse {
        seq![AppEvent::MouseEnable(next.enable_mouse)]
    } else {
        Seq::empty()
    };
    let b = if previous.enable_keyboard != next.enable_keyboard {
        seq![AppEvent::KeyboardEnable(next.enable_keyboard)]
    } else {
        Seq::empty()
    };
    let c = if previous.enable_chapter != next.enable_chapter {
        seq![AppEvent::ChapterEnable(next.enable_chapter)]
    } else {
        Seq::empty()
    };
    let d = if previous.timer_paused != next.timer_paused {
        seq![AppEvent::TimerPaused(next.timer_paused)]
    } else {
        Seq::empty()
    };
    a + b + c + d
}

/// The events of a change of settings (see `settings_events`).
pub fn settings_change_events(previous: &Settings, next: &Settings) -> (r: Vec<AppEvent>)
    ensures
        r@ == settings_events(*previous, *next),
{
    let mut r: Vec<AppEvent> = Vec::new();
    if previous.enable_mouse != next.enable_mouse {
        r.push(AppEvent::MouseEnable(next.enable_mouse));
    }
    if previous.enable_keyboard != next.enable_keyboard {
        r.push(AppEvent::KeyboardEnable(next.enable_keyboard));
    }
    if previous.enable_chapter != next.enable_chapter {
        r.push(AppEvent::ChapterEnable(next.enable_chapter));
    }
    if previous.timer_paused != next.timer_paused {
        r.push(AppEvent::TimerPaused(next.timer_paused));
    }
    assert(r@ =~= settings_events(*previous, *next));
    r
}

/// A change of settings is announced by some event exactly when the
/// settings differ.
pub proof fn settings_events_empty_iff_unchanged(previous: Settings, next: Settings)
    ensures
        (settings_events(previous, next).len() == 0) == (previous == next),
{
}

/// Switches the mouse effects; returns the new value.
pub fn toggle_mouse_setting(settings: &mut Settings) -> (r: bool)
    ensures
        *final(settings) == (Settings { enable_mouse: !old(settings).enable_mouse, ..*old(settings) }),
        r == final(settings).enable_mouse,
{
    settings.enable_mouse = !settings.enable_mouse;
    settings.enable_mouse
}

/// Switches the keyboard display; returns the new value.
pub fn toggle_keyboard_setting(settings: &mut Settings) -> (r: bool)
    ensures
        *final(settings) == (Settings { enable_keyboard: !old(settings).enable_keyboard, ..*old(settings) }),
        r == final(settings).enable_keyboard,
{
    settings.enable_keyboard = !settings.enable_keyboard;
    settings.enable_keyboard
}

/// The events after the chapter display was switched: its new value, then
/// the timer's pause state.
pub open spec fn chapter_toggle_events(settings: Settings) -> Seq<AppEvent> {
    seq![AppEvent::ChapterEnable(settings.enable_chapter), AppEvent::TimerPaused(settings.timer_paused)]
}

/// The events after the chapter display was switched (see
/// `chapter_toggle_events`).
pub fn chapter_toggled_events(settings: &Settings) -> (r: Vec<AppEvent>)
    ensures
        r@ == chapter_toggle_events(*settings),
{
    let mut r: Vec<AppEvent> = Vec::new();
    r.push(AppEvent::ChapterEnable(settings.enable_chapter));
    r.push(AppEvent::TimerPaused(settings.timer_paused));
    assert(r@ =~= chapter_toggle_events(*settings));
    r
}

/// The events after a restart of the chapters: the chapter, the timer's
/// pause state, and, where the chapter display is on, the display switched
/// off and on again so that the overlay starts over.
pub open spec fn restart_events(index: usize, settings: Settings) -> Seq<AppEvent> {
    let base = seq![AppEvent::ChapterIndex(index), AppEvent::TimerPaused(settings.timer_paused)];
    if settings.enable_chapter {
        base + seq![AppEvent::ChapterEnable(false), AppEvent::ChapterEnable(true)]
    } else {
        base
    }
}

/// The events after a restart of the chapters (see `restart_events`).
pub fn restarted_events(index: usize, settings: &Settings) -> (r: Vec<AppEvent>)
    ensures
        r@ == restart_events(index, *settings),
{
    let mut r: Vec<AppEvent> = Vec::new();
    r.push(AppEvent::ChapterIndex(index));
    r.push(AppEvent::TimerPaused(settings.timer_paused));
    if settings.enable_chapter {
        r.push(AppEvent::ChapterEnable(false));
        r.push(AppEvent::ChapterEnable(true));
    }
    assert(r@ =~= restart_events(index, *settings));
    r
}

} // verus!
