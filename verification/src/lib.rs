//! Verified logic of the overlay effect app: the persisted settings and
//! chapter timer, the chapter lap text, keyboard labels and layout
//! detection, pointer coordinates, input monitoring status and tray menu.
pub mod app_state;
pub mod chapter;
pub mod clock;
pub mod geometry;
pub mod input;
pub mod keys;
pub mod laps;
pub mod laws;
pub mod menu;
pub mod monitoring;
pub mod state;
pub mod text;
