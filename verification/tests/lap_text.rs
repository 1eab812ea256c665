use overlay_effect::laps::{chapter_lap_text, format_chapter_time};
use overlay_effect::state::PersistedState;

fn state(text: &str, laps: Vec<u64>) -> PersistedState {
    let mut s = PersistedState::default();
    s.chapter_text = text.to_string();
    s.chapter_laps = laps;
    s
}

#[test]
fn format_minutes_and_seconds() {
    assert_eq!(format_chapter_time(0, false), "0:00");
    assert_eq!(format_chapter_time(999, false), "0:00");
    assert_eq!(format_chapter_time(61_000, false), "1:01");
    assert_eq!(format_chapter_time(59_999, false), "0:59");
    assert_eq!(format_chapter_time(600_000, false), "10:00");
}

#[test]
fn format_with_hours() {
    assert_eq!(format_chapter_time(3_725_000, true), "1:02:05");
    assert_eq!(format_chapter_time(36_000_000, true), "10:00:00");
    assert_eq!(format_chapter_time(5_000, true), "0:00:05");
}

#[test]
fn format_without_hours_drops_them() {
    assert_eq!(format_chapter_time(3_725_000, false), "2:05");
}

#[test]
fn format_largest_time() {
    assert_eq!(format_chapter_time(u64::MAX, true), format!("{}:{:02}:{:02}", u64::MAX / 1000 / 3600, (u64::MAX / 1000 / 60) % 60, (u64::MAX / 1000) % 60));
}

#[test]
fn lap_text_numbers_lines_with_times() {
    let s = state("Intro\nMain\nEnd", vec![60_000, 125_000]);
    assert_eq!(chapter_lap_text(&s), "0:00 1. Intro\n1:00 2. Main\n2:05 3. End");
}

#[test]
fn lap_text_unreached_chapters_show_zero() {
    let s = state("Intro\nMain\nEnd", vec![]);
    assert_eq!(chapter_lap_text(&s), "0:00 1. Intro\n0:00 2. Main\n0:00 3. End");
}

#[test]
fn lap_text_uses_hours_when_last_lap_reaches_an_hour() {
    let s = state("A\r\nB\n", vec![3_600_000]);
    assert_eq!(chapter_lap_text(&s), "0:00:00 1. A\n1:00:00 2. B");
}

#[test]
fn lap_text_of_empty_text_is_empty() {
    let s = state("", vec![5]);
    assert_eq!(chapter_lap_text(&s), "");
}

#[test]
fn lap_text_has_one_line_per_chapter() {
    let text = "a\n\nc\nd";
    let s = state(text, vec![1_000, 2_000, 3_000]);
    assert_eq!(chapter_lap_text(&s).split('\n').count(), text.lines().count());
}
