//! Boundary for the engine's analytics and event log, which record nothing
//! here.

use vstd::prelude::*;

verus! {

/// Points of a metrics report.
#[derive(Default)]
pub struct Points;

impl Points {
    pub fn add_point(&mut self, key: &str, value: &str) {
    }

    pub fn report(&self, name: &str, hundredths_percent: i32) {
    }
}

/// Reports a counter.
pub fn report_counter(name: &str, value: i32, important: bool) {
}

/// Sets the name that reports go out under.
pub fn set_reporter(name: &str) {
}

/// Sets the location that reports carry.
pub fn set_location(loc: &str) {
}

/// Sets the version that reports carry.
pub fn set_app_version(ver: &str) {
}

/// Tracks a user event.
pub fn track_event(category: &str, action: &str, label: &str) {
}

/// The levels of a logged event.
#[derive(Clone, Copy, Debug, PartialEq, Eq, Structural)]
pub enum EventType {
    Information,
    Warning,
    Error,
}

/// Logs an event.
pub fn report_event(kind: EventType, message: &str) {
}

} // verus!
