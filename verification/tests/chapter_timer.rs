use overlay_effect::chapter::{
    add_chapter_index_state, add_chapter_lap, add_chapter_lap_at, calculated_chapter_laps,
    last_chapter_index, normalize_persisted_state, offset_chapter_index, pause_chapter_timer,
    pause_chapter_timer_at, pop_chapter_lap, reset_chapter_timer, restart_chapter_state,
    set_chapter_index_inner, set_chapter_text_state, start_chapter_timer, start_chapter_timer_at,
    toggle_chapter_enabled_state, toggle_chapter_pause_state,
};
use overlay_effect::clock::{current_time_millis, millis_or_zero};
use overlay_effect::state::{default_enabled, PersistedState, Settings};
use overlay_effect::text::split_lines;

fn state_with(text: &str, index: usize) -> PersistedState {
    let mut s = PersistedState::default();
    s.chapter_text = text.to_string();
    s.chapter_index = index;
    s
}

#[test]
fn defaults_match_first_start() {
    assert!(default_enabled());
    let s = Settings::default();
    assert!(s.enable_mouse && s.enable_keyboard && !s.enable_chapter && !s.timer_paused);
    let p = PersistedState::default();
    assert_eq!(p.chapter_text, "");
    assert_eq!(p.chapter_index, 0);
    assert_eq!(p.chapter_timer, 0);
    assert_eq!(p.chapter_paused_time, 0);
    assert!(p.chapter_laps.is_empty());
}

#[test]
fn last_chapter_index_counts_lines() {
    assert_eq!(last_chapter_index(""), 0);
    assert_eq!(last_chapter_index("one"), 0);
    assert_eq!(last_chapter_index("one\ntwo"), 1);
    assert_eq!(last_chapter_index("one\ntwo\n"), 1);
    assert_eq!(last_chapter_index("one\r\ntwo\r\nthree"), 2);
    assert_eq!(last_chapter_index("\n\n"), 1);
    assert_eq!(last_chapter_index("a\n\nb"), 2);
}

#[test]
fn split_lines_matches_std_lines() {
    for text in ["", "a", "a\n", "a\r\nb", "a\rb\n", "x\r", "\n", "\r\n\r\n", "a\n\nb\r\n", "日本\n語"] {
        let expected: Vec<String> = text.lines().map(|l| l.to_string()).collect();
        assert_eq!(split_lines(text), expected, "text {:?}", text);
    }
}

#[test]
fn normalize_moves_chapter_back_into_text() {
    let s = normalize_persisted_state(state_with("a\nb", 5));
    assert_eq!(s.chapter_index, 1);
    let s = normalize_persisted_state(state_with("a\nb\nc", 2));
    assert_eq!(s.chapter_index, 2);
    let s = normalize_persisted_state(state_with("", 3));
    assert_eq!(s.chapter_index, 0);
}

#[test]
fn normalize_twice_is_normalize_once() {
    let once = normalize_persisted_state(state_with("a\nb", 9));
    let twice = normalize_persisted_state(once.clone());
    assert_eq!(once.chapter_index, twice.chapter_index);
}

#[test]
fn start_from_scratch_sets_timer_and_clears_laps() {
    let mut s = state_with("a\nb", 0);
    s.chapter_laps = vec![5, 6];
    s.settings.timer_paused = true;
    s.chapter_paused_time = 0;
    start_chapter_timer_at(&mut s, 1000);
    assert_eq!(s.chapter_timer, 1000);
    assert!(s.chapter_laps.is_empty());
    assert_eq!(s.chapter_paused_time, 0);
    assert!(!s.settings.timer_paused);
}

#[test]
fn resume_moves_timer_by_pause_length() {
    let mut s = state_with("a", 0);
    s.chapter_timer = 1000;
    s.chapter_paused_time = 5000;
    s.settings.timer_paused = true;
    s.chapter_laps = vec![7];
    start_chapter_timer_at(&mut s, 8000);
    assert_eq!(s.chapter_timer, 4000);
    assert_eq!(s.chapter_paused_time, 0);
    assert!(!s.settings.timer_paused);
    assert_eq!(s.chapter_laps, vec![7]);
}

#[test]
fn start_of_running_timer_changes_nothing() {
    let mut s = state_with("a", 0);
    s.chapter_timer = 1000;
    start_chapter_timer(&mut s);
    assert_eq!(s.chapter_timer, 1000);
    start_chapter_timer_at(&mut s, 99999);
    assert_eq!(s.chapter_timer, 1000);
}

#[test]
fn resume_saturates() {
    let mut s = state_with("a", 0);
    s.chapter_timer = u64::MAX - 10;
    s.chapter_paused_time = 100;
    start_chapter_timer_at(&mut s, 1000);
    assert_eq!(s.chapter_timer, u64::MAX);
    let mut s = state_with("a", 0);
    s.chapter_timer = 50;
    s.chapter_paused_time = 1000;
    start_chapter_timer_at(&mut s, 10);
    assert_eq!(s.chapter_timer, 50);
}

#[test]
fn pause_freezes_elapsed_time() {
    let mut s = state_with("a", 0);
    start_chapter_timer_at(&mut s, 10_000);
    pause_chapter_timer_at(&mut s, 15_000);
    assert!(s.settings.timer_paused);
    assert_eq!(s.chapter_paused_time, 15_000);
    start_chapter_timer_at(&mut s, 40_000);
    assert_eq!(40_000 - s.chapter_timer, 15_000 - 10_000);
}

#[test]
fn pause_only_pauses_a_running_timer() {
    let mut s = state_with("a", 0);
    pause_chapter_timer_at(&mut s, 500);
    assert_eq!(s.chapter_paused_time, 0);
    assert!(!s.settings.timer_paused);
    pause_chapter_timer(&mut s);
    assert_eq!(s.chapter_paused_time, 0);
    s.chapter_timer = 100;
    pause_chapter_timer_at(&mut s, 500);
    pause_chapter_timer_at(&mut s, 900);
    assert_eq!(s.chapter_paused_time, 500);
}

#[test]
fn toggling_pause_pauses_then_resumes() {
    let mut s = state_with("a", 0);
    s.chapter_timer = 1;
    toggle_chapter_pause_state(&mut s);
    assert!(s.settings.timer_paused);
    assert!(s.chapter_paused_time != 0);
    toggle_chapter_pause_state(&mut s);
    assert!(!s.settings.timer_paused);
    assert_eq!(s.chapter_paused_time, 0);
}

#[test]
fn reset_clears_timer() {
    let mut s = state_with("a\nb", 1);
    s.chapter_timer = 10;
    s.chapter_paused_time = 20;
    s.chapter_laps = vec![1, 2];
    s.settings.timer_paused = true;
    reset_chapter_timer(&mut s);
    assert_eq!(s.chapter_timer, 0);
    assert_eq!(s.chapter_paused_time, 0);
    assert!(s.chapter_laps.is_empty());
    assert!(!s.settings.timer_paused);
    assert_eq!(s.chapter_index, 1);
}

#[test]
fn lap_values_running_and_paused() {
    let mut s = state_with("a\nb", 0);
    s.chapter_timer = 1000;
    add_chapter_lap_at(&mut s, 0, 6000);
    assert_eq!(s.chapter_laps, vec![5000]);
    s.chapter_paused_time = 9000;
    add_chapter_lap_at(&mut s, 12_000, 12_000);
    assert_eq!(s.chapter_laps, vec![5000, 8000]);
    add_chapter_lap_at(&mut s, 0, 500);
    assert_eq!(s.chapter_laps, vec![5000, 8000, 0]);
}

#[test]
fn lap_needs_a_started_timer() {
    let mut s = state_with("a", 0);
    add_chapter_lap_at(&mut s, 1, 2);
    add_chapter_lap(&mut s);
    assert!(s.chapter_laps.is_empty());
    assert_eq!(pop_chapter_lap(&mut s), None);
}

#[test]
fn pop_returns_last_lap() {
    let mut s = state_with("a", 0);
    s.chapter_laps = vec![3, 4];
    assert_eq!(pop_chapter_lap(&mut s), None);
    assert_eq!(s.chapter_laps, vec![3, 4]);
    s.chapter_timer = 1;
    assert_eq!(pop_chapter_lap(&mut s), Some(4));
    assert_eq!(pop_chapter_lap(&mut s), Some(3));
    assert_eq!(pop_chapter_lap(&mut s), None);
}

#[test]
fn calculated_laps_start_with_zero() {
    let mut s = state_with("a", 0);
    assert_eq!(calculated_chapter_laps(&s), vec![0]);
    s.chapter_laps = vec![10, 20];
    assert_eq!(calculated_chapter_laps(&s), vec![0, 10, 20]);
}

#[test]
fn moving_forward_records_laps_and_back_removes_them() {
    let mut s = state_with("a\nb\nc\nd", 0);
    s.chapter_timer = 1;
    let r = set_chapter_index_inner(&mut s, 2);
    assert_eq!((r.index, r.last), (2, 3));
    assert_eq!(s.chapter_index, 2);
    assert_eq!(s.chapter_laps.len(), 2);
    let r = set_chapter_index_inner(&mut s, 10);
    assert_eq!((r.index, r.last), (3, 3));
    assert_eq!(s.chapter_laps.len(), 3);
    let r = set_chapter_index_inner(&mut s, 0);
    assert_eq!((r.index, r.last), (0, 3));
    assert!(s.chapter_laps.is_empty());
}

#[test]
fn forward_then_back_restores_state() {
    let mut s = state_with("a\nb\nc\nd", 1);
    s.chapter_timer = 1;
    s.chapter_laps = vec![42];
    set_chapter_index_inner(&mut s, 3);
    set_chapter_index_inner(&mut s, 1);
    assert_eq!(s.chapter_index, 1);
    assert_eq!(s.chapter_laps, vec![42]);
    assert_eq!(s.chapter_timer, 1);
}

#[test]
fn moving_without_timer_keeps_laps() {
    let mut s = state_with("a\nb\nc", 0);
    s.chapter_laps = vec![9];
    set_chapter_index_inner(&mut s, 2);
    assert_eq!(s.chapter_laps, vec![9]);
    set_chapter_index_inner(&mut s, 0);
    assert_eq!(s.chapter_laps, vec![9]);
}

#[test]
fn moving_back_past_all_laps_empties_them() {
    let mut s = state_with("a\nb\nc\nd", 3);
    s.chapter_timer = 1;
    s.chapter_laps = vec![5];
    set_chapter_index_inner(&mut s, 0);
    assert!(s.chapter_laps.is_empty());
    assert_eq!(s.chapter_index, 0);
}

#[test]
fn offset_index_saturates_and_stops_at_zero() {
    assert_eq!(offset_chapter_index(3, 2), 5);
    assert_eq!(offset_chapter_index(3, -1), 2);
    assert_eq!(offset_chapter_index(3, -5), 0);
    assert_eq!(offset_chapter_index(isize::MAX as usize, 1), isize::MAX as usize);
    assert_eq!(offset_chapter_index(usize::MAX, 1), 0);
}

#[test]
fn add_chapter_index_moves_relative() {
    let mut s = state_with("a\nb\nc", 1);
    let r = add_chapter_index_state(&mut s, 1);
    assert_eq!((r.index, r.last), (2, 2));
    let r = add_chapter_index_state(&mut s, 5);
    assert_eq!(r.index, 2);
    let r = add_chapter_index_state(&mut s, -9);
    assert_eq!(r.index, 0);
}

#[test]
fn new_text_clamps_chapter() {
    let mut s = state_with("a\nb\nc\nd", 3);
    assert_eq!(set_chapter_text_state(&mut s, "x\ny".to_string()), 1);
    assert_eq!(s.chapter_text, "x\ny");
    assert_eq!(s.chapter_index, 1);
    assert_eq!(set_chapter_text_state(&mut s, "1\n2\n3".to_string()), 1);
}

#[test]
fn toggling_chapter_display_starts_and_pauses_timer() {
    let mut s = state_with("a\nb", 0);
    toggle_chapter_enabled_state(&mut s);
    assert!(s.settings.enable_chapter);
    assert!(!s.settings.timer_paused);
    assert!(s.chapter_timer != 0);
    toggle_chapter_enabled_state(&mut s);
    assert!(!s.settings.enable_chapter);
    assert!(s.settings.timer_paused);
    assert!(s.chapter_paused_time != 0);
}

#[test]
fn restart_goes_to_first_chapter() {
    let mut s = state_with("a\nb\nc", 2);
    s.chapter_timer = 5;
    s.chapter_laps = vec![1, 2];
    restart_chapter_state(&mut s);
    assert_eq!(s.chapter_index, 0);
    assert!(s.chapter_laps.is_empty());
    assert_eq!(s.chapter_timer, 0);
    s.settings.enable_chapter = true;
    s.chapter_index = 1;
    restart_chapter_state(&mut s);
    assert_eq!(s.chapter_index, 0);
    assert!(s.chapter_laps.is_empty());
    assert!(s.chapter_timer != 0);
}

#[test]
fn clock_conversion() {
    assert_eq!(millis_or_zero(None), 0);
    assert_eq!(millis_or_zero(Some(1234)), 1234);
    assert_eq!(millis_or_zero(Some(u64::MAX as u128 + 5)), u64::MAX);
    let now = current_time_millis();
    let expected = std::time::SystemTime::now()
        .duration_since(std::time::UNIX_EPOCH)
        .unwrap()
        .as_millis() as u64;
    assert!(now <= expected && expected - now < 60_000);
}

#[test]
fn reset_twice_is_reset_once() {
    let mut s = state_with("a\nb", 1);
    s.chapter_timer = 10;
    s.chapter_laps = vec![3];
    reset_chapter_timer(&mut s);
    let (t, p, l) = (s.chapter_timer, s.chapter_paused_time, s.chapter_laps.clone());
    reset_chapter_timer(&mut s);
    assert_eq!((s.chapter_timer, s.chapter_paused_time, s.chapter_laps.clone()), (t, p, l));
}

#[test]
fn moves_keep_chapter_within_text() {
    let mut s = state_with("a\nb\nc", 0);
    s.chapter_timer = 1;
    for target in [0usize, 7, 1, usize::MAX, 2] {
        let r = set_chapter_index_inner(&mut s, target);
        assert!(r.index <= r.last);
        assert_eq!(r.last, last_chapter_index(&s.chapter_text));
    }
}
