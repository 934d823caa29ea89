//! The verbs of the client's UI.

use vstd::prelude::*;
use crate::slop::view::{FullscreenChange, FullscreenState, spec_set_fullscreen};

verus! {

/// An action of the client's UI.
pub trait Verb {
    fn do_it(&mut self);

    /// Enabled, unless the verb says otherwise.
    fn is_enabled(&self) -> (r: bool)
        default_ensures
            r,
    {
        true
    }

    /// Not checked, unless the verb says otherwise.
    fn is_checked(&self) -> (r: bool)
        default_ensures
            !r,
    {
        false
    }
}

/// `RecordToggleVerb`: starts video recording, or stops it when it runs.
pub struct RecordToggleVerb {
    pub recording: bool,
}

impl RecordToggleVerb {
    /// Not recording.
    pub fn new() -> (r: RecordToggleVerb)
        ensures
            !r.recording,
    {
        RecordToggleVerb { recording: false }
    }

    /// Starts recording.
    pub fn start_action(&mut self)
        ensures
            final(self).recording,
    {
        self.recording = true;
    }

    /// Stops recording.
    pub fn stop_action(&mut self)
        ensures
            !final(self).recording,
    {
        self.recording = false;
    }
}

impl Verb for RecordToggleVerb {
    /// Toggles recording.
    fn do_it(&mut self)
        ensures
            final(self).recording == !old(self).recording,
    {
        if self.recording {
            self.stop_action();
        } else {
            self.start_action();
        }
    }

    /// Checked while recording.
    fn is_checked(&self) -> (r: bool)
        ensures
            r == self.recording,
    {
        self.recording
    }
}

/// The verb that leaves the game by closing the view's window: it counts
/// the close requests that it made, one per use while it has a view.
pub struct LeaveGameVerb {
    pub has_view: bool,
    pub closes_requested: u64,
}

impl LeaveGameVerb {
    /// A verb for a view, or for none.
    pub fn new(has_view: bool) -> (r: LeaveGameVerb)
        ensures
            r.has_view == has_view,
            r.closes_requested == 0,
    {
        LeaveGameVerb { has_view, closes_requested: 0 }
    }
}

impl Verb for LeaveGameVerb {
    /// Asks the view to close its window, where there is a view.
    fn do_it(&mut self)
        ensures
            final(self).has_view == old(self).has_view,
            final(self).closes_requested == (if old(self).has_view
                && old(self).closes_requested < u64::MAX {
                old(self).closes_requested + 1
            } else {
                old(self).closes_requested as int
            }),
    {
        if self.has_view && self.closes_requested < u64::MAX {
            self.closes_requested = self.closes_requested + 1;
        }
    }
}

/// The verb that switches the view between fullscreen and windowed.
pub struct ToggleFullscreenVerb {
    pub view: Option<FullscreenState>,
}

impl ToggleFullscreenVerb {
    /// A verb for the view's fullscreen state, or for no view.
    pub fn new(view: Option<FullscreenState>) -> (r: ToggleFullscreenVerb)
        ensures
            r.view == view,
    {
        ToggleFullscreenVerb { view }
    }
}

impl Verb for ToggleFullscreenVerb {
    /// Asks the view for the opposite of its fullscreen setting.
    fn do_it(&mut self)
        ensures
            match old(self).view {
                Some(v) => final(self).view == Some(spec_set_fullscreen(v, !v.fullscreen).1),
                None => final(self).view is None,
            },
    {
        match &mut self.view {
            Some(v) => {
                let _ = toggle_fullscreen(v);
            },
            None => {},
        }
    }

    /// Checked while the view is fullscreen.
    fn is_checked(&self) -> (r: bool)
        ensures
            r == (self.view matches Some(v) && v.fullscreen),
    {
        match &self.view {
            Some(v) => v.fullscreen,
            None => false,
        }
    }
}

/// Toggles the view's fullscreen state: asks for the
/// opposite of the current setting.
pub fn toggle_fullscreen(view: &mut FullscreenState) -> (r: FullscreenChange)
    ensures
        (r, *final(view)) == spec_set_fullscreen(*old(view), !old(view).fullscreen),
{
    let value = !view.fullscreen;
    view.set_fullscreen(value)
}

/// Toggling fullscreen twice gives the view its setting back, and each
/// toggle changes the display.
pub proof fn lemma_toggle_twice(s: FullscreenState)
    ensures
        spec_set_fullscreen(spec_set_fullscreen(s, !s.fullscreen).1, s.fullscreen).1.fullscreen
            == s.fullscreen,
        spec_set_fullscreen(s, !s.fullscreen).0 != FullscreenChange::Keep,
        spec_set_fullscreen(spec_set_fullscreen(s, !s.fullscreen).1, s.fullscreen).0
            != FullscreenChange::Keep,
{
}

} // verus!
