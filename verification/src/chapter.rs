//! The chapter timer, its laps, and moving between the chapters of the text.
use crate::clock::{clock_reading, current_time_millis};
use crate::state::{ChapterIndexResult, ChapterModel, PersistedState, Settings};
use crate::text::{lines_of, split_lines};
use vstd::prelude::*;

verus! {

/// The index of the last line of a text; 0 for a text without lines.
pub open spec fn last_line_index(text: Seq<char>) -> usize {
    if lines_of(text).len() > 0 {
        (lines_of(text).len() - 1) as usize
    } else {
        0
    }
}

/// The lower of two indices.
pub open spec fn min_index(a: usize, b: usize) -> usize {
    if a <= b {
        a
    } else {
        b
    }
}

impl ChapterModel {
    /// The last chapter of the text.
    pub open spec fn last(self) -> usize {
        last_line_index(self.text)
    }

    /// The chapter shown lies within the text.
    pub open spec fn index_in_range(self) -> bool {
        self.index <= self.last()
    }

    /// The same state, its chapter moved back to the last one where it lay
    /// beyond it.
    pub open spec fn normalized(self) -> ChapterModel {
        ChapterModel { index: min_index(self.index, self.last()), ..self }
    }

    /// The timer started or resumed at the clock reading `now`: a timer not
    /// started yet starts at `now` with no laps; a paused one moves forward
    /// by the length of the pause; a running one is left as it is.
    pub open spec fn started_at(self, now: u64) -> ChapterModel {
        if self.timer == 0 {
            ChapterModel {
                timer: now,
                laps: Seq::empty(),
                paused: 0,
                settings: Settings { timer_paused: false, ..self.settings },
                ..self
            }
        } else if self.paused != 0 {
            ChapterModel {
                timer: self.timer.saturating_add(now.saturating_sub(self.paused)),
                paused: 0,
                settings: Settings { timer_paused: false, ..self.settings },
                ..self
            }
        } else {
            self
        }
    }

    /// The timer paused at the clock reading `now`, where it runs.
    pub open spec fn paused_at(self, now: u64) -> ChapterModel {
        if self.timer != 0 && self.paused == 0 {
            ChapterModel {
                paused: now,
                settings: Settings { timer_paused: true, ..self.settings },
                ..self
            }
        } else {
            self
        }
    }

    /// Pause where not paused, else resume.
    pub open spec fn pause_toggled_at(self, now: u64) -> ChapterModel {
        if self.paused == 0 {
            self.paused_at(now)
        } else {
            self.started_at(now)
        }
    }

    /// The timer back to not started, without laps.
    pub open spec fn reset(self) -> ChapterModel {
        ChapterModel {
            timer: 0,
            paused: 0,
            laps: Seq::empty(),
            settings: Settings { timer_paused: false, ..self.settings },
            ..self
        }
    }

    /// The elapsed time that a lap records: the clock reading `now_lap`
    /// less the start, where the start of a paused timer first moves
    /// forward by the pause so far, measured at the reading `now_pause`.
    pub open spec fn lap_value(self, now_pause: u64, now_lap: u64) -> u64 {
        let start = if self.paused != 0 {
            self.timer.saturating_add(now_pause.saturating_sub(self.paused))
        } else {
            self.timer
        };
        now_lap.saturating_sub(start)
    }

    /// `v` is the value of a lap of this timer, for some clock readings.
    pub open spec fn is_lap_value(self, v: u64) -> bool {
        exists|a: u64, b: u64| v == #[trigger] self.lap_value(a, b)
    }

    /// `v` is a lap of this timer recorded from the clock: the reading
    /// `now_lap` less the start, where the start of a paused timer first
    /// moves forward by the pause up to the reading `now_pause`.
    pub open spec fn is_clock_lap(self, v: u64) -> bool {
        exists|now_pause: u64, now_lap: u64|
            #![trigger clock_reading(now_pause), clock_reading(now_lap)]
            clock_reading(now_lap) && (self.paused != 0 ==> clock_reading(now_pause)) && v == if self.paused
                != 0 {
                now_lap.saturating_sub(self.timer.saturating_add(now_pause.saturating_sub(self.paused)))
            } else {
                now_lap.saturating_sub(self.timer)
            }
    }

    /// A lap added, where the timer has been started.
    pub open spec fn with_lap(self, now_pause: u64, now_lap: u64) -> ChapterModel {
        if self.timer == 0 {
            self
        } else {
            ChapterModel { laps: self.laps.push(self.lap_value(now_pause, now_lap)), ..self }
        }
    }

    /// The last lap removed, where the timer has been started.
    pub open spec fn lap_popped(self) -> ChapterModel {
        if self.timer != 0 && self.laps.len() > 0 {
            ChapterModel { laps: self.laps.drop_last(), ..self }
        } else {
            self
        }
    }

    /// What a move to the chapter `index` leaves: the chapter becomes
    /// `index`, or the last one where `index` lies beyond it; with a started
    /// timer each chapter moved forward adds a lap (of some clock readings)
    /// and each chapter moved back removes the last lap, where one is left.
    pub open spec fn moved_to(self, index: usize, after: ChapterModel) -> bool {
        let next = min_index(index, self.last());
        &&& after.index == next
        &&& after.settings == self.settings
        &&& after.text == self.text
        &&& after.timer == self.timer
        &&& after.paused == self.paused
        &&& self.timer == 0 ==> after.laps == self.laps
        &&& (self.timer != 0 && self.index <= next) ==> {
            &&& after.laps.len() == self.laps.len() + (next - self.index)
            &&& after.laps.take(self.laps.len() as int) == self.laps
            &&& forall|j: int|
                self.laps.len() <= j < after.laps.len() ==> self.is_lap_value(#[trigger] after.laps[j])
        }
        &&& (self.timer != 0 && next < self.index) ==> after.laps == self.laps.take(
            if self.laps.len() >= self.index - next {
                self.laps.len() - (self.index - next)
            } else {
                0
            },
        )
    }

    /// The chapter display switched: on starts or resumes the timer, off
    /// pauses it.
    pub open spec fn chapter_toggled_at(self, now: u64) -> ChapterModel {
        let flipped = ChapterModel {
            settings: Settings { enable_chapter: !self.settings.enable_chapter, ..self.settings },
            ..self
        };
        if flipped.settings.enable_chapter {
            flipped.started_at(now)
        } else {
            flipped.paused_at(now)
        }
    }

    /// The chapters restarted: timer reset, first chapter, and the timer
    /// started again where the chapter display is on.
    pub open spec fn restarted_at(self, now: u64) -> ChapterModel {
        let first = ChapterModel { index: 0, ..self.reset() };
        if self.settings.enable_chapter {
            first.started_at(now)
        } else {
            first
        }
    }
}

/// The index of the last line of `text` (0 where it has none).
pub fn last_chapter_index(text: &str) -> (r: usize)
    ensures
        r == last_line_index(text@),
{
    let lines = split_lines(text);
    proof {
        assert(lines@.len() == lines_of(text@).len());
    }
    lines.len().saturating_sub(1)
}

/// The state with its chapter moved back into the text where it lay beyond
/// the last line.
pub fn normalize_persisted_state(state: PersistedState) -> (r: PersistedState)
    ensures
        r@ == state@.normalized(),
        r@.index_in_range(),
{
    let mut state = state;
    let last = last_chapter_index(&state.chapter_text);
    if state.chapter_index > last {
        state.chapter_index = last;
    }
    state
}

/// Starts or resumes the timer at the clock reading `now`.
pub fn start_chapter_timer_at(state: &mut PersistedState, now: u64)
    ensures
        final(state)@ == old(state)@.started_at(now),
        old(state)@.timer == 0 ==> final(state)@.timer == now && final(state)@.laps.len() == 0,
        old(state)@.timer != 0 && old(state)@.paused != 0 ==> final(state)@.timer == old(
            state,
        )@.timer.saturating_add(now.saturating_sub(old(state)@.paused)) && final(state)@.paused == 0,
{
    if state.chapter_timer == 0 {
        state.chapter_timer = now;
        state.chapter_laps = Vec::new();
        state.chapter_paused_time = 0;
        state.settings.timer_paused = false;
        return ;
    }
    if state.chapter_paused_time != 0 {
        let diff = now.saturating_sub(state.chapter_paused_time);
        state.chapter_timer = state.chapter_timer.saturating_add(diff);
        state.chapter_paused_time = 0;
        state.settings.timer_paused = false;
    }
}

/// Starts the timer where it has not been started, resumes it where it is
/// paused, at the current clock reading.
pub fn start_chapter_timer(state: &mut PersistedState)
    ensures
        exists|now: u64| final(state)@ == #[trigger] old(state)@.started_at(now),
        old(state)@.timer == 0 || old(state)@.paused != 0 ==> exists|now: u64|
            #![trigger clock_reading(now)]
            clock_reading(now) && final(state)@ == old(state)@.started_at(now),
        old(state)@.timer == 0 ==> exists|now: u64|
            #![trigger clock_reading(now)]
            clock_reading(now) && final(state)@.timer == now,
        old(state)@.timer != 0 && old(state)@.paused != 0 ==> exists|now: u64|
            #![trigger clock_reading(now)]
            clock_reading(now) && final(state)@.timer == old(state)@.timer.saturating_add(
                now.saturating_sub(old(state)@.paused),
            ),
        old(state)@.timer != 0 && old(state)@.paused == 0 ==> final(state)@ == old(state)@,
{
    if state.chapter_timer == 0 || state.chapter_paused_time != 0 {
        let now = current_time_millis();
        assert(clock_reading(now));
        start_chapter_timer_at(state, now);
    } else {
        assert(state@ == old(state)@.started_at(0));
    }
}

/// Pauses a running timer at the clock reading `now`.
pub fn pause_chapter_timer_at(state: &mut PersistedState, now: u64)
    ensures
        final(state)@ == old(state)@.paused_at(now),
        old(state)@.timer != 0 && old(state)@.paused == 0 ==> final(state)@.paused == now
            && final(state)@.settings.timer_paused,
{
    if state.chapter_timer != 0 && state.chapter_paused_time == 0 {
        state.chapter_paused_time = now;
        state.settings.timer_paused = true;
    }
}

/// Pauses a running timer at the current clock reading.
pub fn pause_chapter_timer(state: &mut PersistedState)
    ensures
        exists|now: u64| final(state)@ == #[trigger] old(state)@.paused_at(now),
        old(state)@.timer != 0 && old(state)@.paused == 0 ==> exists|now: u64|
            #![trigger clock_reading(now)]
            clock_reading(now) && final(state)@ == old(state)@.paused_at(now) && final(state)@.paused
                == now,
        !(old(state)@.timer != 0 && old(state)@.paused == 0) ==> final(state)@ == old(state)@,
{
    if state.chapter_timer != 0 && state.chapter_paused_time == 0 {
        let now = current_time_millis();
        assert(clock_reading(now));
        pause_chapter_timer_at(state, now);
    } else {
        assert(state@ == old(state)@.paused_at(0));
    }
}

/// Pauses the timer where it is not paused, else resumes it.
pub fn toggle_chapter_pause_state(state: &mut PersistedState)
    ensures
        exists|now: u64| final(state)@ == #[trigger] old(state)@.pause_toggled_at(now),
        old(state)@.timer != 0 && old(state)@.paused != 0 ==> exists|now: u64|
            #![trigger clock_reading(now)]
            clock_reading(now) && final(state)@.timer == old(state)@.timer.saturating_add(
                now.saturating_sub(old(state)@.paused),
            ) && final(state)@.paused == 0,
        old(state)@.timer != 0 && old(state)@.paused == 0 ==> exists|now: u64|
            #![trigger clock_reading(now)]
            clock_reading(now) && final(state)@.paused == now,
{
    if state.chapter_paused_time == 0 {
        pause_chapter_timer(state);
        let ghost now = choose|now: u64| state@ == #[trigger] old(state)@.paused_at(now);
        assert(state@ == old(state)@.pause_toggled_at(now));
    } else {
        start_chapter_timer(state);
        let ghost now = choose|now: u64| state@ == #[trigger] old(state)@.started_at(now);
        assert(state@ == old(state)@.pause_toggled_at(now));
    }
}

/// Stops the timer and drops its laps.
pub fn reset_chapter_timer(state: &mut PersistedState)
    ensures
        final(state)@ == old(state)@.reset(),
{
    state.chapter_timer = 0;
    state.chapter_paused_time = 0;
    state.chapter_laps = Vec::new();
    state.settings.timer_paused = false;
}

/// Records a lap of a started timer from the clock readings `now_pause`
/// (taken first, where the timer is paused) and `now_lap`.
pub fn add_chapter_lap_at(state: &mut PersistedState, now_pause: u64, now_lap: u64)
    ensures
        final(state)@ == old(state)@.with_lap(now_pause, now_lap),
        old(state)@.timer != 0 && old(state)@.paused == 0 ==> final(state)@.laps == old(
            state,
        )@.laps.push(now_lap.saturating_sub(old(state)@.timer)),
        old(state)@.timer != 0 && old(state)@.paused != 0 ==> final(state)@.laps == old(
            state,
        )@.laps.push(
            now_lap.saturating_sub(
                old(state)@.timer.saturating_add(now_pause.saturating_sub(old(state)@.paused)),
            ),
        ),
{
    if state.chapter_timer == 0 {
        return ;
    }
    let mut timer = state.chapter_timer;
    if state.chapter_paused_time != 0 {
        timer = timer.saturating_add(now_pause.saturating_sub(state.chapter_paused_time));
    }
    let lap = now_lap.saturating_sub(timer);
    state.chapter_laps.push(lap);
}

/// Records a lap of a started timer at the current clock readings.
pub fn add_chapter_lap(state: &mut PersistedState)
    ensures
        exists|a: u64, b: u64| final(state)@ == #[trigger] old(state)@.with_lap(a, b),
        old(state)@.timer == 0 ==> final(state)@ == old(state)@,
        old(state)@.timer != 0 ==> final(state)@ == (ChapterModel { laps: final(state)@.laps, ..old(state)@ }),
        old(state)@.timer != 0 ==> final(state)@.laps.len() == old(state)@.laps.len() + 1
            && final(state)@.laps.drop_last() == old(state)@.laps && old(state)@.is_clock_lap(
            final(state)@.laps.last(),
        ),
        old(state)@.timer != 0 && old(state)@.paused == 0 ==> exists|now: u64|
            #![trigger clock_reading(now)]
            clock_reading(now) && final(state)@.laps == old(state)@.laps.push(
                now.saturating_sub(old(state)@.timer),
            ),
{
    if state.chapter_timer == 0 {
        assert(state@ == old(state)@.with_lap(0, 0));
        return ;
    }
    let now_pause = if state.chapter_paused_time != 0 {
        current_time_millis()
    } else {
        0
    };
    let now_lap = current_time_millis();
    assert(clock_reading(now_lap));
    assert(state.chapter_paused_time != 0 ==> clock_reading(now_pause));
    add_chapter_lap_at(state, now_pause, now_lap);
    assert(state@.laps.drop_last() =~= old(state)@.laps);
}

/// Removes and returns the last lap of a started timer.
pub fn pop_chapter_lap(state: &mut PersistedState) -> (r: Option<u64>)
    ensures
        final(state)@ == old(state)@.lap_popped(),
        r == if old(state)@.timer != 0 && old(state)@.laps.len() > 0 {
            Some(old(state)@.laps.last())
        } else {
            None::<u64>
        },
{
    if state.chapter_timer == 0 {
        return None;
    }
    state.chapter_laps.pop()
}

/// The laps with the start of the first chapter, 0, before them.
pub fn calculated_chapter_laps(state: &PersistedState) -> (r: Vec<u64>)
    ensures
        r@ == seq![0u64] + state@.laps,
{
    let mut laps: Vec<u64> = Vec::new();
    laps.push(0);
    let n = state.chapter_laps.len();
    for i in 0..n
        invariant
            n == state.chapter_laps@.len(),
            laps@ == seq![0u64] + state.chapter_laps@.take(i as int),
    {
        laps.push(state.chapter_laps[i]);
        assert(state.chapter_laps@.take(i + 1) =~= state.chapter_laps@.take(i as int).push(
            state.chapter_laps@[i as int],
        ));
        assert(laps@ =~= seq![0u64] + state.chapter_laps@.take(i + 1));
    }
    assert(state.chapter_laps@.take(n as int) =~= state.chapter_laps@);
    laps
}

/// Moves to the chapter `index` (the last one where `index` lies beyond
/// it), adding a lap for each chapter moved forward and removing one for
/// each chapter moved back, while the timer runs.
pub fn set_chapter_index_inner(state: &mut PersistedState, index: usize) -> (r: ChapterIndexResult)
    ensures
        old(state)@.moved_to(index, final(state)@),
        forall|j: int|
            old(state)@.laps.len() <= j < final(state)@.laps.len() ==> old(state)@.is_clock_lap(
                #[trigger] final(state)@.laps[j],
            ),
        r.index == final(state)@.index,
        r.last == old(state)@.last(),
{
    let ghost s0 = state@;
    let last = last_chapter_index(&state.chapter_text);
    let current = state.chapter_index;
    let next = if index <= last {
        index
    } else {
        last
    };
    if current < next {
        for k in current..next
            invariant
                current <= next,
                state@.index == s0.index,
                state@.settings == s0.settings,
                state@.text == s0.text,
                state@.timer == s0.timer,
                state@.paused == s0.paused,
                s0.timer == 0 ==> state@.laps == s0.laps,
                s0.timer != 0 ==> state@.laps.len() == s0.laps.len() + (k - current),
                state@.laps.take(s0.laps.len() as int) == s0.laps,
                forall|j: int|
                    s0.laps.len() <= j < state@.laps.len() ==> s0.is_lap_value(#[trigger] state@.laps[j]),
                forall|j: int|
                    s0.laps.len() <= j < state@.laps.len() ==> s0.is_clock_lap(#[trigger] state@.laps[j]),
        {
            let ghost before = state@;
            add_chapter_lap(state);
            proof {
                let (a, b) = choose|a: u64, b: u64| state@ == #[trigger] before.with_lap(a, b);
                if s0.timer != 0 {
                    assert(state@.laps == before.laps.push(s0.lap_value(a, b)));
                    assert(state@.laps.take(s0.laps.len() as int) =~= before.laps.take(
                        s0.laps.len() as int,
                    ));
                    assert forall|j: int|
                        s0.laps.len() <= j < state@.laps.len() implies s0.is_clock_lap(
                        #[trigger] state@.laps[j],
                    ) by {
                        if j < before.laps.len() {
                            assert(state@.laps[j] == before.laps[j]);
                        } else {
                            assert(state@.laps[j] == state@.laps.last());
                        }
                    }
                    assert forall|j: int|
                        s0.laps.len() <= j < state@.laps.len() implies s0.is_lap_value(
                        #[trigger] state@.laps[j],
                    ) by {
                        if j < before.laps.len() {
                            assert(state@.laps[j] == before.laps[j]);
                        } else {
                            assert(state@.laps[j] == s0.lap_value(a, b));
                        }
                    }
                }
            }
        }
    }
    let ghost mid = state@;
    if next < current {
        for k in next..current
            invariant
                next <= current,
                state@.index == s0.index,
                state@.settings == s0.settings,
                state@.text == s0.text,
                state@.timer == s0.timer,
                state@.paused == s0.paused,
                s0.timer == 0 ==> state@.laps == s0.laps,
                s0.timer != 0 ==> state@.laps == s0.laps.take(
                    if s0.laps.len() >= k - next {
                        s0.laps.len() - (k - next)
                    } else {
                        0
                    },
                ),
        {
            pop_chapter_lap(state);
            proof {
                if s0.timer != 0 {
                    assert(state@.laps =~= s0.laps.take(
                        if s0.laps.len() >= k + 1 - next {
                            s0.laps.len() - (k + 1 - next)
                        } else {
                            0
                        },
                    ));
                }
            }
        }
    }
    proof {
        if s0.timer != 0 && next < current {
            assert(mid.laps =~= s0.laps);
        }
        assert(s0.laps.take(s0.laps.len() as int) =~= s0.laps);
    }
    state.chapter_index = next;
    ChapterIndexResult { index: state.chapter_index, last }
}

/// Replaces the chapter text, moving the chapter back into it where it lay
/// beyond its last line; returns the chapter now shown.
pub fn set_chapter_text_state(state: &mut PersistedState, text: String) -> (r: usize)
    ensures
        final(state)@ == (ChapterModel { text: text@, ..old(state)@ }).normalized(),
        r == final(state)@.index,
{
    state.chapter_text = text;
    let last = last_chapter_index(&state.chapter_text);
    if state.chapter_index > last {
        state.chapter_index = last;
    }
    state.chapter_index
}

/// The chapter `num` steps from `current` (backwards for a negative `num`),
/// no lower than 0.
pub fn offset_chapter_index(current: usize, num: isize) -> (r: usize)
    ensures
        r == offset_chapter_index_spec(current, num),
{
    let c = current as isize;
    let moved = match c.checked_add(num) {
        Some(v) => v,
        None => if num > 0 {
            isize::MAX
        } else {
            isize::MIN
        },
    };
    if moved >= 0 {
        moved as usize
    } else {
        0
    }
}

/// Moves `num` chapters from the current one (see `offset_chapter_index`
/// and `set_chapter_index_inner`).
pub fn add_chapter_index_state(state: &mut PersistedState, num: isize) -> (r: ChapterIndexResult)
    ensures
        old(state)@.moved_to(offset_chapter_index_spec(old(state)@.index, num), final(state)@),
        forall|j: int|
            old(state)@.laps.len() <= j < final(state)@.laps.len() ==> old(state)@.is_clock_lap(
                #[trigger] final(state)@.laps[j],
            ),
        r.index == final(state)@.index,
        r.last == old(state)@.last(),
{
    let next = offset_chapter_index(state.chapter_index, num);
    set_chapter_index_inner(state, next)
}

/// `current`, taken as an `isize` (as std's `as` does), plus `num`,
/// clamped to the range of `isize` and then to at least 0.
pub open spec fn offset_chapter_index_spec(current: usize, num: isize) -> usize {
    let sum = (current as isize) + num;
    if sum > isize::MAX {
        isize::MAX as usize
    } else if sum >= 0 {
        sum as usize
    } else {
        0usize
    }
}

/// Switches the chapter display; switching it on starts or resumes the
/// timer, switching it off pauses it.
pub fn toggle_chapter_enabled_state(state: &mut PersistedState)
    ensures
        exists|now: u64| final(state)@ == #[trigger] old(state)@.chapter_toggled_at(now),
        ({
            let o = old(state)@;
            let reads_clock = if o.settings.enable_chapter {
                o.timer != 0 && o.paused == 0
            } else {
                o.timer == 0 || o.paused != 0
            };
            &&& reads_clock ==> exists|now: u64|
                #![trigger clock_reading(now)]
                clock_reading(now) && final(state)@ == o.chapter_toggled_at(now)
            &&& !reads_clock ==> final(state)@ == o.chapter_toggled_at(0)
        }),
{
    state.settings.enable_chapter = !state.settings.enable_chapter;
    let ghost flipped = state@;
    if state.settings.enable_chapter {
        start_chapter_timer(state);
        let ghost now = choose|now: u64| state@ == #[trigger] flipped.started_at(now);
        assert(state@ == old(state)@.chapter_toggled_at(now));
        proof {
            if flipped.timer == 0 || flipped.paused != 0 {
                let n2 = choose|n2: u64|
                    #![trigger clock_reading(n2)]
                    clock_reading(n2) && state@ == flipped.started_at(n2);
                assert(clock_reading(n2) && state@ == old(state)@.chapter_toggled_at(n2));
            } else {
                assert(state@ == old(state)@.chapter_toggled_at(0));
            }
        }
    } else {
        pause_chapter_timer(state);
        let ghost now = choose|now: u64| state@ == #[trigger] flipped.paused_at(now);
        assert(state@ == old(state)@.chapter_toggled_at(now));
        proof {
            if flipped.timer != 0 && flipped.paused == 0 {
                let n2 = choose|n2: u64|
                    #![trigger clock_reading(n2)]
                    clock_reading(n2) && state@ == flipped.paused_at(n2) && state@.paused == n2;
                assert(clock_reading(n2) && state@ == old(state)@.chapter_toggled_at(n2));
            } else {
                assert(state@ == old(state)@.chapter_toggled_at(0));
            }
        }
    }
}

/// Restarts the chapters: resets the timer, goes to the first chapter, and
/// starts the timer again where the chapter display is on.
pub fn restart_chapter_state(state: &mut PersistedState)
    ensures
        exists|now: u64| final(state)@ == #[trigger] old(state)@.restarted_at(now),
        old(state)@.settings.enable_chapter ==> exists|now: u64|
            #![trigger clock_reading(now)]
            clock_reading(now) && final(state)@ == old(state)@.restarted_at(now),
        !old(state)@.settings.enable_chapter ==> final(state)@ == old(state)@.restarted_at(0),
{
    reset_chapter_timer(state);
    set_chapter_index_inner(state, 0);
    assert(state@ == ChapterModel { index: 0, ..old(state)@.reset() });
    if state.settings.enable_chapter {
        let ghost first = state@;
        start_chapter_timer(state);
        let ghost now = choose|now: u64| state@ == #[trigger] first.started_at(now);
        assert(state@ == old(state)@.restarted_at(now));
        proof {
            let n2 = choose|n2: u64|
                #![trigger clock_reading(n2)]
                clock_reading(n2) && state@ == first.started_at(n2);
            assert(clock_reading(n2) && state@ == old(state)@.restarted_at(n2));
        }
    } else {
        assert(state@ == old(state)@.restarted_at(0));
    }
}

} // verus!
