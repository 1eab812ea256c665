//! The persisted settings and chapter state, and their mathematical model.
use vstd::prelude::*;

verus! {

/// The effects the user has switched on, and whether the chapter timer is
/// paused.
#[derive(Clone, Copy, Debug, PartialEq, Eq, Structural)]
pub struct Settings {
    pub enable_mouse: bool,
    pub enable_keyboard: bool,
    pub enable_chapter: bool,
    pub timer_paused: bool,
}

/// The value that a missing mouse or keyboard switch takes: switched on.
pub fn default_enabled() -> (r: bool)
    ensures
        r,
{
    true
}

impl Settings {
    /// The settings of a first start: mouse and keyboard effects on, the
    /// chapter display off, the timer not paused.
    pub open spec fn initial() -> Settings {
        Settings { enable_mouse: true, enable_keyboard: true, enable_chapter: false, timer_paused: false }
    }
}

impl Default for Settings {
    fn default() -> (r: Settings)
        ensures
            r == Settings::initial(),
    {
        Settings {
            enable_mouse: default_enabled(),
            enable_keyboard: default_enabled(),
            enable_chapter: false,
            timer_paused: false,
        }
    }
}

/// Everything that is saved across restarts: the settings, the chapter text,
/// the chapter shown, and the chapter timer with its laps.
///
/// The timer is a start instant in milliseconds (0 while it has not been
/// started), moved forward by the length of every pause; a paused timer
/// holds the instant of the pause in `chapter_paused_time` (0 while running).
/// `chapter_laps` holds, for each chapter moved past, the elapsed time at
/// that moment.
#[derive(Clone, Debug)]
pub struct PersistedState {
    pub settings: Settings,
    pub chapter_text: String,
    pub chapter_index: usize,
    pub chapter_timer: u64,
    pub chapter_paused_time: u64,
    pub chapter_laps: Vec<u64>,
}

/// The mathematical model of a `PersistedState`.
pub struct ChapterModel {
    pub settings: Settings,
    pub text: Seq<char>,
    pub index: usize,
    pub timer: u64,
    pub paused: u64,
    pub laps: Seq<u64>,
}

impl View for PersistedState {
    type V = ChapterModel;

    open spec fn view(&self) -> ChapterModel {
        ChapterModel {
            settings: self.settings,
            text: self.chapter_text@,
            index: self.chapter_index,
            timer: self.chapter_timer,
            paused: self.chapter_paused_time,
            laps: self.chapter_laps@,
        }
    }
}

impl ChapterModel {
    /// The state of a first start: default settings, no text, first chapter,
    /// no timer and no laps.
    pub open spec fn initial() -> ChapterModel {
        ChapterModel {
            settings: Settings::initial(),
            text: Seq::empty(),
            index: 0,
            timer: 0,
            paused: 0,
            laps: Seq::empty(),
        }
    }
}

impl Default for PersistedState {
    fn default() -> (r: PersistedState)
        ensures
            r@ == ChapterModel::initial(),
    {
        PersistedState {
            settings: Settings::default(),
            chapter_text: String::new(),
            chapter_index: 0,
            chapter_timer: 0,
            chapter_paused_time: 0,
            chapter_laps: Vec::new(),
        }
    }
}

/// The chapter shown after a change of chapter, and the last chapter of the
/// text.
#[derive(Clone, Copy, Debug, PartialEq, Eq, Structural)]
pub struct ChapterIndexResult {
    pub index: usize,
    pub last: usize,
}

} // verus!
