//! The state the app keeps while it runs: the persisted data, whether the
//! overlay is shown, and the input monitoring decisions.
use crate::menu::{tray_check_state, TrayCheckState};
use crate::monitoring::{not_started_status, MonitoringController};
use crate::state::{ChapterModel, PersistedState};
use vstd::prelude::*;

verus! {

/// The state the app keeps while it runs.
#[derive(Debug)]
pub struct AppState {
    pub data: PersistedState,
    pub overlay_visible: bool,
    pub monitoring: MonitoringController,
}

impl Default for AppState {
    /// The state at launch, before the saved data is loaded: default data,
    /// the overlay shown, monitoring not started and no launch made.
    fn default() -> (r: AppState)
        ensures
            r.data@ == ChapterModel::initial(),
            r.overlay_visible,
            r.monitoring@.status == not_started_status(),
            r.monitoring@.attempt == 0,
            !r.monitoring@.listener_running,
            !r.monitoring@.event_seen,
            !r.monitoring@.chapter_input_paused,
    {
        AppState {
            data: PersistedState::default(),
            overlay_visible: true,
            monitoring: MonitoringController::new(),
        }
    }
}

impl AppState {
    /// Shows the overlay where it was hidden and hides it where it was
    /// shown; returns whether it is shown now.
    pub fn toggle_overlay_visibility(&mut self) -> (r: bool)
        ensures
            final(self).overlay_visible == !old(self).overlay_visible,
            final(self).data@ == old(self).data@,
            final(self).monitoring@ == old(self).monitoring@,
            r == final(self).overlay_visible,
    {
        self.overlay_visible = !self.overlay_visible;
        self.overlay_visible
    }

    /// The tray's check marks for this state.
    pub fn tray_checks(&self) -> (r: TrayCheckState)
        ensures
            r.overlay_visible == self.overlay_visible,
            r.mouse_enabled == self.data.settings.enable_mouse,
            r.keyboard_enabled == self.data.settings.enable_keyboard,
            r.chapter_enabled == self.data.settings.enable_chapter,
    {
        tray_check_state(self.data.settings, self.overlay_visible)
    }
}

} // verus!
