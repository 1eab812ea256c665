use overlay_effect::monitoring::{
    chapter_input_paused_status, unreadable, MonitoringController, MonitoringState,
};

const GUIDANCE: &str = "Allow this app in macOS System Settings > Privacy & Security > Accessibility and Input Monitoring, then retry.";

#[test]
fn starts_not_started() {
    let c = MonitoringController::new();
    let s = c.current_status();
    assert_eq!(s.state, MonitoringState::Starting);
    assert_eq!(s.state.as_str(), "starting");
    assert_eq!(s.message, "Input monitoring has not started yet.");
    assert_eq!(s.guidance, None);
    assert!(!s.can_retry);
    assert_eq!(c.attempt, 0);
}

#[test]
fn unsupported_platform_never_launches() {
    let mut c = MonitoringController::new();
    let d = c.start(false, false);
    assert_eq!(d.launch, None);
    assert_eq!(d.statuses.len(), 1);
    assert_eq!(d.statuses[0].state.as_str(), "unsupported");
    assert_eq!(d.statuses[0].message, "Global input monitoring is not implemented on this platform yet.");
    assert!(!c.listener_running);
}

#[test]
fn environment_can_disable_monitoring() {
    let mut c = MonitoringController::new();
    let d = c.start(true, true);
    assert_eq!(d.launch, None);
    assert_eq!(d.statuses[0].state.as_str(), "disabled");
    assert_eq!(d.statuses[0].message, "Global input monitoring is disabled by OVERLAY_DISABLE_MOUSE_LISTENER=1.");
    assert_eq!(
        d.statuses[0].guidance.as_deref(),
        Some("Unset OVERLAY_DISABLE_MOUSE_LISTENER and restart the app to enable input monitoring.")
    );
}

#[test]
fn launch_then_no_second_listener() {
    let mut c = MonitoringController::new();
    let d = c.start(true, false);
    assert_eq!(d.launch, Some(1));
    assert_eq!(d.statuses[0].message, "Starting global input monitoring.");
    assert!(c.listener_running);
    let d = c.start(true, false);
    assert_eq!(d.launch, None);
    assert_eq!(d.statuses[0].message, "Global input monitoring is already starting or active.");
    assert_eq!(c.attempt, 1);
}

#[test]
fn first_event_shows_active() {
    let mut c = MonitoringController::new();
    c.start(true, false);
    let s = c.input_event_seen().unwrap();
    assert_eq!(s.state.as_str(), "active");
    assert_eq!(s.message, "Global input monitoring is active.");
    assert!(c.input_event_seen().is_none());
    assert!(c.watchdog_fired(1).is_none());
}

#[test]
fn watchdog_warns_only_for_current_silent_launch() {
    let mut c = MonitoringController::new();
    c.start(true, false);
    assert!(c.watchdog_fired(7).is_none());
    let s = c.watchdog_fired(1).unwrap();
    assert_eq!(s.state.as_str(), "waiting");
    assert_eq!(s.message, "Global input monitoring has not received any input events yet.");
    assert!(!s.can_retry);
    assert!(c.watchdog_fired(1).is_none());
}

#[test]
fn failure_allows_retry() {
    let mut c = MonitoringController::new();
    c.start(true, false);
    let s = c.listener_failed("EventTapError");
    assert_eq!(s.state.as_str(), "failed");
    assert_eq!(s.message, "Failed to start global input monitoring: EventTapError");
    assert_eq!(s.guidance.as_deref(), Some(GUIDANCE));
    assert!(s.can_retry);
    assert!(!c.listener_running);
    assert!(c.watchdog_fired(1).is_none());
    let d = c.retry_input_monitoring(true, false);
    assert_eq!(d.launch, Some(2));
    assert_eq!(d.statuses.len(), 2);
    assert_eq!(d.statuses[0].state.as_str(), "active");
    assert_eq!(d.statuses[1].message, "Starting global input monitoring.");
    assert!(c.watchdog_fired(1).is_none());
    assert!(c.watchdog_fired(2).is_some());
}

#[test]
fn chapter_settings_pause_keyboard() {
    let mut c = MonitoringController::new();
    let s = c.set_chapter_input_paused(true);
    assert_eq!(s.state.as_str(), "disabled");
    assert_eq!(s.message, "Keyboard input monitoring is paused after opening chapter settings.");
    assert!(s.can_retry);
    let d = c.retry_input_monitoring(true, false);
    assert_eq!(d.statuses.len(), 1);
    assert!(c.chapter_input_paused);
    assert_eq!(d.launch, Some(1));
    let s = c.set_chapter_input_paused(false);
    assert_eq!(s.message, "Global input monitoring is active.");
    assert_eq!(chapter_input_paused_status(false).state, MonitoringState::Active);
}

#[test]
fn unreadable_status_offers_retry() {
    let s = unreadable();
    assert_eq!(s.state.as_str(), "failed");
    assert_eq!(s.message, "Failed to read input monitoring status.");
    assert!(s.can_retry);
}
