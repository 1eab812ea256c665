//! Properties that span several operations: of the chapter timer and its
//! laps, of the keyboard state, and of the monitoring decisions.
use crate::chapter::min_index;
use crate::clock::clock_reading;
use crate::input::KeyboardModel;
use crate::keys::{key_names, next_layout, Key, KeyboardLayout};
use crate::monitoring::{failed_status, ControllerModel};
use crate::state::ChapterModel;
use vstd::prelude::*;

verus! {

/// Moving the chapter back into the text twice moves it no further.
pub proof fn normalize_is_idempotent(m: ChapterModel)
    ensures
        m.normalized().normalized() == m.normalized(),
        m.normalized().index_in_range(),
{
}

/// A move to a chapter leaves the chapter within the text, and so do the
/// timer's operations on a state whose chapter lies within the text.
pub proof fn operations_keep_chapter_in_text(
    m: ChapterModel,
    index: usize,
    after: ChapterModel,
    now_a: u64,
    now_b: u64,
)
    requires
        m.index_in_range(),
    ensures
        m.moved_to(index, after) ==> after.index_in_range(),
        m.started_at(now_a).index_in_range(),
        m.paused_at(now_a).index_in_range(),
        m.pause_toggled_at(now_a).index_in_range(),
        m.reset().index_in_range(),
        m.with_lap(now_a, now_b).index_in_range(),
        m.lap_popped().index_in_range(),
        m.chapter_toggled_at(now_a).index_in_range(),
        m.restarted_at(now_a).index_in_range(),
{
}

/// Moving forward to a later chapter and back to the one before restores
/// the state: the laps recorded on the way are removed again.
pub proof fn forward_then_back_restores(m: ChapterModel, index: usize, there: ChapterModel, back: ChapterModel)
    requires
        m.index_in_range(),
        m.index <= index,
        m.moved_to(index, there),
        there.moved_to(m.index, back),
    ensures
        back == m,
{
    let next = min_index(index, m.last());
    assert(there.last() == m.last());
    if m.timer != 0 {
        if next == m.index {
            assert(there.laps =~= there.laps.take(m.laps.len() as int));
            assert(back.laps =~= there.laps.take(there.laps.len() as int));
            assert(back.laps =~= m.laps);
        } else {
            assert(back.laps =~= there.laps.take(m.laps.len() as int));
        }
    }
    assert(back.laps =~= m.laps);
    assert(back.text =~= m.text);
}

/// A pause stops the clock of the chapters: the time elapsed when the
/// timer resumes is the time elapsed when it was paused (where the clock
/// did not go backwards and no value saturates).
pub proof fn pause_freezes_elapsed_time(m: ChapterModel, paused_at: u64, resumed_at: u64)
    requires
        m.timer != 0,
        m.paused == 0,
        paused_at != 0,
        m.timer <= paused_at <= resumed_at,
        m.timer + (resumed_at - paused_at) <= u64::MAX,
    ensures
        ({
            let r = m.paused_at(paused_at).started_at(resumed_at);
            &&& resumed_at - r.timer == paused_at - m.timer
            &&& r.paused == 0
            &&& !r.settings.timer_paused
            &&& r.laps == m.laps
        }),
{
}

/// A lap taken while the timer is paused records the time elapsed at the
/// pause (both clock readings at the same instant, the clock not gone
/// backwards, no value saturating).
pub proof fn lap_while_paused_is_time_at_pause(m: ChapterModel, now: u64)
    requires
        m.timer != 0,
        m.paused != 0,
        m.timer <= m.paused <= now,
        m.timer + (now - m.paused) <= u64::MAX,
    ensures
        m.lap_value(now, now) == m.paused - m.timer,
{
}

/// A lap taken while the timer runs records the time elapsed since the
/// start.
pub proof fn lap_while_running_is_elapsed_time(m: ChapterModel, now_pause: u64, now: u64)
    requires
        m.paused == 0,
        m.timer <= now,
    ensures
        m.lap_value(now_pause, now) == now - m.timer,
{
}

/// Resetting twice resets no further.
pub proof fn reset_is_idempotent(m: ChapterModel)
    ensures
        m.reset().reset() == m.reset(),
{
    assert(m.reset().reset().laps =~= m.reset().laps);
}

/// Pausing a paused timer changes nothing (where the first pause did not
/// read 0 from the clock).
pub proof fn pause_is_idempotent(m: ChapterModel, first: u64, second: u64)
    requires
        first != 0,
    ensures
        m.paused_at(first).paused_at(second) == m.paused_at(first),
{
}

/// Starting a started timer changes nothing (where the timer was started
/// before, or the start did not read 0 from the clock).
pub proof fn start_is_idempotent(m: ChapterModel, first: u64, second: u64)
    requires
        m.timer != 0 || first != 0,
    ensures
        m.started_at(first).started_at(second) == m.started_at(first),
{
}

/// A restart leaves the first chapter and no laps.
pub proof fn restart_goes_to_first_chapter(m: ChapterModel, now: u64)
    ensures
        m.restarted_at(now).index == 0,
        m.restarted_at(now).laps.len() == 0,
        m.restarted_at(now).text == m.text,
{
}

/// The order of layouts by how much they tell: unknown, then US, then JIS.
pub open spec fn layout_rank(layout: KeyboardLayout) -> int {
    match layout {
        KeyboardLayout::Unknown => 0,
        KeyboardLayout::Us => 1,
        KeyboardLayout::Jis => 2,
    }
}

/// The detected layout never falls back: JIS, once seen, is kept for good,
/// and a known layout never becomes unknown again.
pub proof fn layout_never_falls_back(current: KeyboardLayout, inferred: Option<KeyboardLayout>)
    ensures
        layout_rank(next_layout(current, inferred)) >= layout_rank(current),
        current == KeyboardLayout::Jis ==> next_layout(current, inferred) == KeyboardLayout::Jis,
{
}

/// JIS, once detected, survives any sequence of key events.
pub proof fn jis_survives_events(events: Seq<Option<KeyboardLayout>>, current: KeyboardLayout)
    requires
        current == KeyboardLayout::Jis,
    ensures
        events.fold_left(current, |acc: KeyboardLayout, e: Option<KeyboardLayout>| next_layout(acc, e))
            == KeyboardLayout::Jis,
    decreases events.len(),
{
    if events.len() > 0 {
        jis_survives_events(events.drop_last(), current);
    }
}

/// A pressed key shows as held down under its label until it is released;
/// once released, neither the key nor that label shows any more.
pub proof fn released_keys_disappear(
    m: KeyboardModel,
    key: Key,
    press_name: Option<Seq<char>>,
    release_name: Option<Seq<char>>,
)
    ensures
        ({
            let label = key_names(press_name, key).0;
            let held = m.press(key, press_name);
            let released = held.release(key, release_name);
            &&& held.pressed.contains(label)
            &&& held.active.contains_key(key) && held.active[key] == label
            &&& !released.pressed.contains(label)
            &&& !released.active.contains_key(key)
        }),
{
}

/// A running listener is never started a second time: a request to start
/// while one runs launches nothing and leaves it running.
pub proof fn no_second_listener(c: ControllerModel, platform_supported: bool, disabled_by_env: bool)
    requires
        c.listener_running,
    ensures
        !c.launches(platform_supported, disabled_by_env),
        c.started(platform_supported, disabled_by_env).listener_running,
        c.started(platform_supported, disabled_by_env).attempt == c.attempt,
{
}

/// Each launch gets a new number, one more than the last (below the
/// largest `u64`), so that a watchdog of an earlier launch stays silent.
pub proof fn launches_are_numbered_afresh(c: ControllerModel, earlier: u64)
    requires
        c.launches(true, false),
        c.attempt < u64::MAX,
        earlier <= c.attempt,
    ensures
        c.started(true, false).attempt == c.attempt + 1,
        c.started(true, false).attempt != earlier,
        c.started(true, false).listener_running,
{
}

/// A listener that failed can be started again: after the failure is
/// recorded, a start on a supported platform not switched off by the
/// environment launches a new listener with a new number.
pub proof fn failed_listener_can_be_retried(c: ControllerModel, error: Seq<char>)
    requires
        c.attempt < u64::MAX,
    ensures
        ({
            let failed = ControllerModel { listener_running: false, status: failed_status(error), ..c };
            &&& failed.status.can_retry
            &&& failed.launches(true, false)
            &&& failed.started(true, false).attempt == c.attempt + 1
        }),
{
}

/// Resuming a paused timer moves its start forward by the length of the
/// pause, up to the clock reading taken at the resume: the time elapsed at
/// the resume is the time elapsed at the pause.
pub proof fn resume_skips_the_pause(m: ChapterModel, now: u64)
    requires
        m.timer != 0,
        m.paused != 0,
        m.timer <= m.paused <= now,
        m.timer + (now - m.paused) <= u64::MAX,
    ensures
        ({
            let r = m.pause_toggled_at(now);
            &&& r.timer == m.timer + (now - m.paused)
            &&& now - r.timer == m.paused - m.timer
            &&& r.paused == 0
            &&& !r.settings.timer_paused
            &&& r.laps == m.laps
        }),
{
}

/// A lap keeps the earlier laps and appends the time elapsed at the lap's
/// clock reading: the reading less the start, the start of a paused timer
/// moved forward by the pause so far; where the reading is not before the
/// start, the lap plus the start is the reading.
pub proof fn lap_records_elapsed_time(m: ChapterModel, now_pause: u64, now_lap: u64)
    requires
        m.timer != 0,
    ensures
        m.with_lap(now_pause, now_lap).laps.drop_last() == m.laps,
        m.with_lap(now_pause, now_lap).laps.len() == m.laps.len() + 1,
        m.paused == 0 && m.timer <= now_lap ==> m.with_lap(now_pause, now_lap).laps.last() + m.timer
            == now_lap,
        m.paused != 0 && m.paused <= now_pause && m.timer + (now_pause - m.paused) <= now_lap ==> m.with_lap(
            now_pause,
            now_lap,
        ).laps.last() + m.timer + (now_pause - m.paused) == now_lap,
{
    assert(m.with_lap(now_pause, now_lap).laps.drop_last() =~= m.laps);
}

/// A lap that a running timer records from the clock is a clock reading
/// less the start.
pub proof fn running_clock_lap_is_reading_less_start(m: ChapterModel, v: u64)
    requires
        m.paused == 0,
        m.is_clock_lap(v),
    ensures
        exists|now: u64| #![trigger clock_reading(now)] clock_reading(now) && v == now.saturating_sub(m.timer),
{
    let (a, b) = choose|a: u64, b: u64|
        #![trigger clock_reading(a), clock_reading(b)]
        clock_reading(b) && (m.paused != 0 ==> clock_reading(a)) && v == if m.paused != 0 {
            b.saturating_sub(m.timer.saturating_add(a.saturating_sub(m.paused)))
        } else {
            b.saturating_sub(m.timer)
        };
    assert(clock_reading(b) && v == b.saturating_sub(m.timer));
}

} // verus!
