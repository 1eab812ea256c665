//! The status of global input monitoring, and the decisions about starting
//! the input listener, watching for its first event and retrying it.
use crate::text::{push_text, string_of};
use vstd::prelude::*;

verus! {

/// Where input monitoring stands.
#[derive(Clone, Copy, Debug, PartialEq, Eq, Structural)]
pub enum MonitoringState {
    Starting,
    Active,
    Disabled,
    Waiting,
    Failed,
    Unsupported,
}

impl MonitoringState {
    /// The name the overlay expects.
    pub open spec fn name(self) -> Seq<char> {
        match self {
            MonitoringState::Starting => "starting"@,
            MonitoringState::Active => "active"@,
            MonitoringState::Disabled => "disabled"@,
            MonitoringState::Waiting => "waiting"@,
            MonitoringState::Failed => "failed"@,
            MonitoringState::Unsupported => "unsupported"@,
        }
    }

    /// The name of the state (see `name`).
    pub fn as_str(&self) -> (r: &'static str)
        ensures
            r@ == self.name(),
    {
        match self {
            MonitoringState::Starting => "starting",
            MonitoringState::Active => "active",
            MonitoringState::Disabled => "disabled",
            MonitoringState::Waiting => "waiting",
            MonitoringState::Failed => "failed",
            MonitoringState::Unsupported => "unsupported",
        }
    }
}

/// The status shown to the user: the state, a message, what to do about
/// it, and whether retrying may help.
#[derive(Debug)]
pub struct InputMonitoringStatus {
    pub state: MonitoringState,
    pub message: String,
    pub guidance: Option<String>,
    pub can_retry: bool,
}

/// The mathematical model of a status.
pub struct StatusModel {
    pub state: MonitoringState,
    pub message: Seq<char>,
    pub guidance: Option<Seq<char>>,
    pub can_retry: bool,
}

impl View for InputMonitoringStatus {
    type V = StatusModel;

    open spec fn view(&self) -> StatusModel {
        StatusModel {
            state: self.state,
            message: self.message@,
            guidance: match self.guidance {
                Some(g) => Some(g@),
                None => None,
            },
            can_retry: self.can_retry,
        }
    }
}

/// The text a user reads when monitoring failed to start.
pub open spec fn permission_guidance() -> Seq<char> {
    "Allow this app in macOS System Settings > Privacy & Security > Accessibility and Input Monitoring, then retry."@
}

/// The status before monitoring starts.
pub open spec fn not_started_status() -> StatusModel {
    StatusModel {
        state: MonitoringState::Starting,
        message: "Input monitoring has not started yet."@,
        guidance: None,
        can_retry: false,
    }
}

/// The status of running monitoring.
pub open spec fn active_status() -> StatusModel {
    StatusModel {
        state: MonitoringState::Active,
        message: "Global input monitoring is active."@,
        guidance: None,
        can_retry: false,
    }
}

/// The status while the chapter settings hold the keyboard.
pub open spec fn chapter_paused_status() -> StatusModel {
    StatusModel {
        state: MonitoringState::Disabled,
        message: "Keyboard input monitoring is paused after opening chapter settings."@,
        guidance: Some(
            "Use the tray menu to retry mouse monitoring after closing chapter settings. Restart the app to re-enable keyboard input monitoring safely."@,
        ),
        can_retry: true,
    }
}

/// The status where the platform has no input monitoring.
pub open spec fn unsupported_status() -> StatusModel {
    StatusModel {
        state: MonitoringState::Unsupported,
        message: "Global input monitoring is not implemented on this platform yet."@,
        guidance: Some(
            "The current Tauri migration prioritizes macOS. Windows/Linux support is planned for a later phase."@,
        ),
        can_retry: false,
    }
}

/// The status where the environment switched monitoring off.
pub open spec fn disabled_by_env_status() -> StatusModel {
    StatusModel {
        state: MonitoringState::Disabled,
        message: "Global input monitoring is disabled by OVERLAY_DISABLE_MOUSE_LISTENER=1."@,
        guidance: Some(
            "Unset OVERLAY_DISABLE_MOUSE_LISTENER and restart the app to enable input monitoring."@,
        ),
        can_retry: false,
    }
}

/// The status of a start while a listener already runs.
pub open spec fn already_running_status() -> StatusModel {
    StatusModel {
        state: MonitoringState::Starting,
        message: "Global input monitoring is already starting or active."@,
        guidance: None,
        can_retry: false,
    }
}

/// The status of a listener being started.
pub open spec fn starting_status() -> StatusModel {
    StatusModel {
        state: MonitoringState::Starting,
        message: "Starting global input monitoring."@,
        guidance: None,
        can_retry: false,
    }
}

/// The status of a listener that has seen no event in its first seconds.
pub open spec fn waiting_status() -> StatusModel {
    StatusModel {
        state: MonitoringState::Waiting,
        message: "Global input monitoring has not received any input events yet."@,
        guidance: Some(
            "Move the mouse or press a key to confirm monitoring. If effects do not appear, allow this app in macOS System Settings > Privacy & Security > Accessibility and Input Monitoring, then restart the app."@,
        ),
        can_retry: false,
    }
}

/// The status where the status itself could not be read.
pub open spec fn unreadable_status() -> StatusModel {
    StatusModel {
        state: MonitoringState::Failed,
        message: "Failed to read input monitoring status."@,
        guidance: Some("Restart the app and check macOS input permissions if this persists."@),
        can_retry: true,
    }
}

/// The message of a listener that failed with `error`.
pub open spec fn failure_message(error: Seq<char>) -> Seq<char> {
    "Failed to start global input monitoring: "@ + error
}

/// The status of a listener that failed with `error`.
pub open spec fn failed_status(error: Seq<char>) -> StatusModel {
    StatusModel {
        state: MonitoringState::Failed,
        message: failure_message(error),
        guidance: Some(permission_guidance()),
        can_retry: true,
    }
}

fn status(state: MonitoringState, message: &str, guidance: Option<&str>, can_retry: bool) -> (r:
    InputMonitoringStatus)
    ensures
        r@ == (StatusModel {
            state,
            message: message@,
            guidance: match guidance {
                Some(g) => Some(g@),
                None => None,
            },
            can_retry,
        }),
{
    let guidance = match guidance {
        Some(g) => Some(string_of(g)),
        None => None,
    };
    InputMonitoringStatus { state, message: string_of(message), guidance, can_retry }
}

/// The status before monitoring starts.
pub fn not_started() -> (r: InputMonitoringStatus)
    ensures
        r@ == not_started_status(),
{
    status(MonitoringState::Starting, "Input monitoring has not started yet.", None, false)
}

/// The status of running monitoring.
pub fn active() -> (r: InputMonitoringStatus)
    ensures
        r@ == active_status(),
{
    status(MonitoringState::Active, "Global input monitoring is active.", None, false)
}

/// The status where the status itself could not be read.
pub fn unreadable() -> (r: InputMonitoringStatus)
    ensures
        r@ == unreadable_status(),
{
    status(
        MonitoringState::Failed,
        "Failed to read input monitoring status.",
        Some("Restart the app and check macOS input permissions if this persists."),
        true,
    )
}

/// The status after the chapter settings paused (or released) the
/// keyboard: paused keyboard monitoring with advice, else active.
pub fn chapter_input_paused_status(paused: bool) -> (r: InputMonitoringStatus)
    ensures
        r@ == if paused {
            chapter_paused_status()
        } else {
            active_status()
        },
{
    if paused {
        status(
            MonitoringState::Disabled,
            "Keyboard input monitoring is paused after opening chapter settings.",
            Some(
                "Use the tray menu to retry mouse monitoring after closing chapter settings. Restart the app to re-enable keyboard input monitoring safely.",
            ),
            true,
        )
    } else {
        active()
    }
}

/// A copy of a status.
pub fn copy_status(s: &InputMonitoringStatus) -> (r: InputMonitoringStatus)
    ensures
        r@ == s@,
{
    let guidance = match &s.guidance {
        Some(g) => Some(g.clone()),
        None => None,
    };
    InputMonitoringStatus { state: s.state, message: s.message.clone(), guidance, can_retry: s.can_retry }
}

/// What a request to start monitoring decided.
#[derive(Debug)]
pub struct StartDecision {
    /// The statuses to show, in order.
    pub statuses: Vec<InputMonitoringStatus>,
    /// The attempt of a listener to launch now, if one is to be launched.
    pub launch: Option<u64>,
}

/// The monitoring decisions' state: the status shown, the number of the
/// last launch, whether a listener runs, whether the current listener has
/// seen an event, and whether the chapter settings hold the keyboard.
#[derive(Debug)]
pub struct MonitoringController {
    pub status: InputMonitoringStatus,
    pub attempt: u64,
    pub listener_running: bool,
    pub event_seen: bool,
    pub chapter_input_paused: bool,
}

/// The mathematical model of the controller.
pub struct ControllerModel {
    pub status: StatusModel,
    pub attempt: u64,
    pub listener_running: bool,
    pub event_seen: bool,
    pub chapter_input_paused: bool,
}

impl View for MonitoringController {
    type V = ControllerModel;

    open spec fn view(&self) -> ControllerModel {
        ControllerModel {
            status: self.status@,
            attempt: self.attempt,
            listener_running: self.listener_running,
            event_seen: self.event_seen,
            chapter_input_paused: self.chapter_input_paused,
        }
    }
}

impl ControllerModel {
    /// The state after a request to start monitoring: nothing launches on
    /// a platform without monitoring, when the environment switched it off,
    /// or while a listener runs; otherwise a listener of the next attempt
    /// launches, with no event seen yet.
    pub open spec fn started(self, platform_supported: bool, disabled_by_env: bool) -> ControllerModel {
        if !platform_supported {
            ControllerModel { status: unsupported_status(), ..self }
        } else if disabled_by_env {
            ControllerModel { status: disabled_by_env_status(), ..self }
        } else if self.listener_running {
            ControllerModel { status: already_running_status(), ..self }
        } else {
            ControllerModel {
                status: starting_status(),
                attempt: self.attempt.saturating_add(1),
                listener_running: true,
                event_seen: false,
                ..self
            }
        }
    }

    /// Whether a request to start monitoring launches a listener.
    pub open spec fn launches(self, platform_supported: bool, disabled_by_env: bool) -> bool {
        platform_supported && !disabled_by_env && !self.listener_running
    }
}

impl MonitoringController {
    /// Nothing started yet.
    pub fn new() -> (r: MonitoringController)
        ensures
            r@ == (ControllerModel {
                status: not_started_status(),
                attempt: 0,
                listener_running: false,
                event_seen: false,
                chapter_input_paused: false,
            }),
    {
        MonitoringController {
            status: not_started(),
            attempt: 0,
            listener_running: false,
            event_seen: false,
            chapter_input_paused: false,
        }
    }

    /// The status shown now.
    pub fn current_status(&self) -> (r: InputMonitoringStatus)
        ensures
            r@ == self@.status,
    {
        copy_status(&self.status)
    }

    /// The chapter settings took (or released) the keyboard; returns the
    /// status to show.
    pub fn set_chapter_input_paused(&mut self, paused: bool) -> (r: InputMonitoringStatus)
        ensures
            final(self)@ == (ControllerModel {
                chapter_input_paused: paused,
                status: if paused {
                    chapter_paused_status()
                } else {
                    active_status()
                },
                ..old(self)@
            }),
            r@ == final(self)@.status,
    {
        self.chapter_input_paused = paused;
        self.status = chapter_input_paused_status(paused);
        copy_status(&self.status)
    }

    fn show(&mut self, s: InputMonitoringStatus, shown: &mut Vec<InputMonitoringStatus>)
        ensures
            final(self)@ == (ControllerModel { status: s@, ..old(self)@ }),
            final(shown)@.len() == old(shown)@.len() + 1,
            final(shown)@.take(old(shown)@.len() as int) == old(shown)@,
            final(shown)@.last()@ == s@,
    {
        shown.push(copy_status(&s));
        self.status = s;
    }

    /// A request to start monitoring (see `ControllerModel::started`);
    /// returns the status to show and the attempt to launch, if any.
    pub fn start(&mut self, platform_supported: bool, disabled_by_env: bool) -> (r: StartDecision)
        ensures
            final(self)@ == old(self)@.started(platform_supported, disabled_by_env),
            r.statuses@.len() == 1,
            r.statuses@[0]@ == final(self)@.status,
            r.launch == if old(self)@.launches(platform_supported, disabled_by_env) {
                Some(final(self)@.attempt)
            } else {
                None::<u64>
            },
    {
        let mut shown: Vec<InputMonitoringStatus> = Vec::new();
        if !platform_supported {
            let s = status(
                MonitoringState::Unsupported,
                "Global input monitoring is not implemented on this platform yet.",
                Some(
                    "The current Tauri migration prioritizes macOS. Windows/Linux support is planned for a later phase.",
                ),
                false,
            );
            self.show(s, &mut shown);
            return StartDecision { statuses: shown, launch: None };
        }
        if disabled_by_env {
            let s = status(
                MonitoringState::Disabled,
                "Global input monitoring is disabled by OVERLAY_DISABLE_MOUSE_LISTENER=1.",
                Some("Unset OVERLAY_DISABLE_MOUSE_LISTENER and restart the app to enable input monitoring."),
                false,
            );
            self.show(s, &mut shown);
            return StartDecision { statuses: shown, launch: None };
        }
        if self.listener_running {
            let s = status(
                MonitoringState::Starting,
                "Global input monitoring is already starting or active.",
                None,
                false,
            );
            self.show(s, &mut shown);
            return StartDecision { statuses: shown, launch: None };
        }
        self.listener_running = true;
        self.attempt = self.attempt.saturating_add(1);
        self.event_seen = false;
        let s = status(MonitoringState::Starting, "Starting global input monitoring.", None, false);
        self.show(s, &mut shown);
        StartDecision { statuses: shown, launch: Some(self.attempt) }
    }

    /// The user asked to retry: unless the chapter settings hold the
    /// keyboard, monitoring is first shown active again; then a start is
    /// requested. Returns the statuses to show, in order, and the attempt
    /// to launch, if any.
    pub fn retry_input_monitoring(&mut self, platform_supported: bool, disabled_by_env: bool) -> (r:
        StartDecision)
        ensures
            ({
                let resumed = if old(self)@.chapter_input_paused {
                    old(self)@
                } else {
                    ControllerModel { status: active_status(), ..old(self)@ }
                };
                &&& final(self)@ == resumed.started(platform_supported, disabled_by_env)
                &&& r.launch == if resumed.launches(platform_supported, disabled_by_env) {
                    Some(final(self)@.attempt)
                } else {
                    None::<u64>
                }
                &&& r.statuses@.len() == if old(self)@.chapter_input_paused {
                    1int
                } else {
                    2int
                }
                &&& !old(self)@.chapter_input_paused ==> r.statuses@[0]@ == active_status()
                &&& r.statuses@.last()@ == final(self)@.status
            }),
    {
        let mut shown: Vec<InputMonitoringStatus> = Vec::new();
        if !self.chapter_input_paused {
            let s = self.set_chapter_input_paused(false);
            shown.push(s);
        }
        let mut decision = self.start(platform_supported, disabled_by_env);
        let last = decision.statuses.pop();
        match last {
            Some(s) => shown.push(s),
            None => {},
        }
        StartDecision { statuses: shown, launch: decision.launch }
    }

    /// An input event reached the listener; the first one of a launch shows
    /// monitoring as active (the status returned).
    pub fn input_event_seen(&mut self) -> (r: Option<InputMonitoringStatus>)
        ensures
            old(self)@.event_seen ==> final(self)@ == old(self)@ && r is None,
            !old(self)@.event_seen ==> final(self)@ == (ControllerModel {
                event_seen: true,
                status: active_status(),
                ..old(self)@
            }) && (r matches Some(s) && s@ == active_status()),
    {
        if self.event_seen {
            return None;
        }
        self.event_seen = true;
        self.status = active();
        Some(active())
    }

    /// The watchdog of launch `attempt` woke: where that launch is still
    /// the current one, has seen no event and still shows as starting, the
    /// user is told that no input has arrived (the status returned).
    pub fn watchdog_fired(&mut self, attempt: u64) -> (r: Option<InputMonitoringStatus>)
        ensures
            ({
                let fires = !old(self)@.event_seen && old(self)@.attempt == attempt
                    && old(self)@.status.state == MonitoringState::Starting;
                &&& fires ==> final(self)@ == (ControllerModel { status: waiting_status(), ..old(self)@ })
                    && (r matches Some(s) && s@ == waiting_status())
                &&& !fires ==> final(self)@ == old(self)@ && r is None
            }),
    {
        if !self.event_seen && self.attempt == attempt && self.status.state == MonitoringState::Starting {
            let s = status(
                MonitoringState::Waiting,
                "Global input monitoring has not received any input events yet.",
                Some(
                    "Move the mouse or press a key to confirm monitoring. If effects do not appear, allow this app in macOS System Settings > Privacy & Security > Accessibility and Input Monitoring, then restart the app.",
                ),
                false,
            );
            self.status = copy_status(&s);
            Some(s)
        } else {
            None
        }
    }

    /// The listener could not start, with `error`: no listener runs any
    /// more, and the failure is shown with advice and the offer to retry
    /// (the status returned; its message is also the one to log).
    pub fn listener_failed(&mut self, error: &str) -> (r: InputMonitoringStatus)
        ensures
            final(self)@ == (ControllerModel {
                listener_running: false,
                status: failed_status(error@),
                ..old(self)@
            }),
            r@ == failed_status(error@),
    {
        let mut message = string_of("Failed to start global input monitoring: ");
        push_text(&mut message, error);
        let s = InputMonitoringStatus {
            state: MonitoringState::Failed,
            message,
            guidance: Some(
                string_of(
                    "Allow this app in macOS System Settings > Privacy & Security > Accessibility and Input Monitoring, then retry.",
                ),
            ),
            can_retry: true,
        };
        self.listener_running = false;
        self.status = copy_status(&s);
        s
    }
}

} // verus!
