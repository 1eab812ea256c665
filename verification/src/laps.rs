//! The chapter text with the lap time of each chapter, as it is copied to
//! the clipboard.
use crate::chapter::calculated_chapter_laps;
use crate::state::PersistedState;
use crate::text::{decimal, decimal2, digit_char, lines_of, push_chars, push_decimal, push_decimal2, split_lines, views};
use vstd::prelude::*;

verus! {

/// One hour in milliseconds.
pub const HOUR_MILLIS: u64 = 3600000;

/// A time in milliseconds as text: `minutes:seconds`, or with
/// `is_over_hour` `hours:minutes:seconds`; minutes and seconds are those
/// within the hour and within the minute, seconds (and minutes after hours)
/// with two digits, and the milliseconds below a second dropped.
pub open spec fn chapter_time_text(time_millis: u64, is_over_hour: bool) -> Seq<char> {
    let total_seconds = time_millis / 1000;
    let hours = total_seconds / 60 / 60;
    let minutes = (total_seconds / 60) % 60;
    let seconds = total_seconds % 60;
    if is_over_hour {
        decimal(hours as nat) + seq![':'] + decimal2(minutes as nat) + seq![':'] + decimal2(
            seconds as nat,
        )
    } else {
        decimal(minutes as nat) + seq![':'] + decimal2(seconds as nat)
    }
}

/// Formats a time in milliseconds (see `chapter_time_text`).
pub fn format_chapter_time(time_millis: u64, is_over_hour: bool) -> (r: String)
    ensures
        r@ == chapter_time_text(time_millis, is_over_hour),
{
    let total_seconds = time_millis / 1000;
    let hours = total_seconds / 60 / 60;
    let minutes = (total_seconds / 60) % 60;
    let seconds = total_seconds % 60;
    let mut r = String::new();
    if is_over_hour {
        push_decimal(&mut r, hours);
        r.push(':');
        push_decimal2(&mut r, minutes);
    } else {
        push_decimal(&mut r, minutes);
    }
    r.push(':');
    push_decimal2(&mut r, seconds);
    assert(r@ =~= chapter_time_text(time_millis, is_over_hour));
    r
}

/// Whether the times are written with hours: the last lap is an hour or
/// more.
pub open spec fn laps_over_hour(laps: Seq<u64>) -> bool {
    laps.len() > 0 && laps.last() >= HOUR_MILLIS
}

/// The lap of line `i`; 0 for a line without a lap.
pub open spec fn lap_of_line(laps: Seq<u64>, i: int) -> u64 {
    if 0 <= i < laps.len() {
        laps[i]
    } else {
        0
    }
}

/// The text of one chapter line: its time, its number from 1, a dot and the
/// line.
pub open spec fn lap_line(lap: u64, is_over_hour: bool, i: int, line: Seq<char>) -> Seq<char> {
    chapter_time_text(lap, is_over_hour) + seq![' '] + decimal((i + 1) as nat) + seq!['.', ' ']
        + line
}

/// The lines of `text`, each with its time from `laps`.
pub open spec fn lap_lines(text: Seq<char>, laps: Seq<u64>) -> Seq<Seq<char>> {
    let lines = lines_of(text);
    Seq::new(
        lines.len(),
        |i: int| lap_line(lap_of_line(laps, i), laps_over_hour(laps), i, lines[i]),
    )
}

/// Lines joined with a line feed between each two.
pub open spec fn join_lines(parts: Seq<Seq<char>>) -> Seq<char>
    decreases parts.len(),
{
    if parts.len() == 0 {
        Seq::empty()
    } else if parts.len() == 1 {
        parts[0]
    } else {
        join_lines(parts.drop_last()) + seq!['\n'] + parts.last()
    }
}

/// The lines of the lap text show hours exactly when the last recorded lap
/// (the start of the first chapter, 0, where none is recorded) is an hour
/// or more: line `i` is its lap time, in that format, its number and the
/// line.
pub proof fn lap_text_hours_follow_last_lap(text: Seq<char>, laps: Seq<u64>)
    ensures
        lap_lines(text, seq![0u64] + laps) == Seq::new(
            lines_of(text).len(),
            |i: int|
                lap_line(
                    lap_of_line(seq![0u64] + laps, i),
                    laps.len() > 0 && laps.last() >= 3_600_000,
                    i,
                    lines_of(text)[i],
                ),
        ),
{
    let all = seq![0u64] + laps;
    assert(all.len() == laps.len() + 1);
    if laps.len() > 0 {
        assert(all.last() == laps.last());
    } else {
        assert(all.last() == 0);
    }
    assert(laps_over_hour(all) == (laps.len() > 0 && laps.last() >= 3_600_000));
    assert(lap_lines(text, all) =~= Seq::new(
        lines_of(text).len(),
        |i: int|
            lap_line(
                lap_of_line(all, i),
                laps.len() > 0 && laps.last() >= 3_600_000,
                i,
                lines_of(text)[i],
            ),
    ));
}

/// The long form of a time is its whole hours, a colon, and the short form
/// with the minutes padded to two digits: the short form drops the hours.
pub proof fn hour_format_extends_minute_format(t: u64)
    ensures
        chapter_time_text(t, true) == decimal((t / 1000 / 60 / 60) as nat) + seq![':'] + (if (t / 1000
            / 60) % 60 < 10 {
            seq!['0']
        } else {
            Seq::<char>::empty()
        }) + chapter_time_text(t, false),
{
    let m = ((t / 1000 / 60) % 60) as nat;
    if m < 10 {
        assert(decimal(m) == seq![digit_char(m)]);
        assert(decimal2(m) =~= seq!['0'] + decimal(m));
    }
    assert(chapter_time_text(t, true) =~= decimal((t / 1000 / 60 / 60) as nat) + seq![':'] + (if m
        < 10 {
        seq!['0']
    } else {
        Seq::<char>::empty()
    }) + chapter_time_text(t, false));
}

/// The chapter text with the lap time of each chapter before its line: the
/// first chapter at 0, each next one at the lap recorded when it was
/// reached, and 0 for chapters not reached yet.
pub fn chapter_lap_text(state: &PersistedState) -> (r: String)
    ensures
        r@ == join_lines(lap_lines(state@.text, seq![0u64] + state@.laps)),
        r@ == join_lines(
            Seq::new(
                lines_of(state@.text).len(),
                |i: int|
                    lap_line(
                        lap_of_line(seq![0u64] + state@.laps, i),
                        state@.laps.len() > 0 && state@.laps.last() >= 3_600_000,
                        i,
                        lines_of(state@.text)[i],
                    ),
            ),
        ),
{
    proof {
        lap_text_hours_follow_last_lap(state@.text, state@.laps);
    }
    let laps = calculated_chapter_laps(state);
    let n_laps = laps.len();
    let is_over_hour = laps[n_laps - 1] >= HOUR_MILLIS;
    let lines = split_lines(state.chapter_text.as_str());
    let ghost parts = lap_lines(state@.text, laps@);
    assert(laps_over_hour(laps@) == is_over_hour);
    let n = lines.len();
    assert(views(lines@).len() == n);
    let mut r = String::new();
    for i in 0..n
        invariant
            n == lines@.len(),
            n == parts.len(),
            n_laps == laps@.len(),
            parts == lap_lines(state@.text, laps@),
            views(lines@) == lines_of(state@.text),
            laps_over_hour(laps@) == is_over_hour,
            r@ == join_lines(parts.take(i as int)),
    {
        let ghost before = r@;
        if i > 0 {
            r.push('\n');
        }
        let lap = if i < n_laps {
            laps[i]
        } else {
            0
        };
        let part_text = lap_line_text(lap, is_over_hour, i, &lines[i]);
        let part_chars = chars_of_string(&part_text);
        push_chars(&mut r, part_chars.as_slice());
        proof {
            assert(lines@[i as int]@ == views(lines@)[i as int]);
            let part = parts[i as int];
            assert(part == part_text@);
            assert(parts.take(i + 1).drop_last() =~= parts.take(i as int));
            if i == 0 {
                assert(r@ =~= part);
            } else {
                assert(r@ =~= before + seq!['\n'] + part);
            }
        }
    }
    assert(parts.take(n as int) =~= parts);
    r
}

/// The text of one chapter line (see `lap_line`).
fn lap_line_text(lap: u64, is_over_hour: bool, i: usize, line: &String) -> (r: String)
    requires
        i < usize::MAX,
    ensures
        r@ == lap_line(lap, is_over_hour, i as int, line@),
{
    let time = format_chapter_time(lap, is_over_hour);
    let mut r = String::new();
    push_chars(&mut r, chars_of_string(&time).as_slice());
    r.push(' ');
    push_decimal(&mut r, (i + 1) as u64);
    r.push('.');
    r.push(' ');
    push_chars(&mut r, chars_of_string(line).as_slice());
    assert(r@ =~= lap_line(lap, is_over_hour, i as int, line@));
    r
}

/// The characters of a string.
fn chars_of_string(s: &String) -> (r: Vec<char>)
    ensures
        r@ == s@,
{
    crate::text::chars_of(s.as_str())
}

} // verus!
