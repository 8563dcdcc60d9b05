//! The shared control state: the run flag and the active flag.

use vstd::prelude::*;

verus! {

/// The two flags as plain values, as contracts speak of them.
pub struct ControlView {
    /// The utility has not been told to quit.
    pub running: bool,
    /// The worker is emitting key presses.
    pub active: bool,
}

impl ControlView {
    /// The flags at process start: running, and not yet emitting.
    pub open spec fn initial() -> ControlView {
        ControlView { running: true, active: false }
    }

    /// The flags after the run flag was cleared.
    pub open spec fn stopped(self) -> ControlView {
        ControlView { running: false, active: self.active }
    }

    /// The flags after the active flag was flipped.
    pub open spec fn toggled(self) -> ControlView {
        ControlView { running: self.running, active: !self.active }
    }
}

/// The run flag and the active flag.
///
/// The fields are private: the run flag can only be cleared, never set again.
#[derive(Clone, Copy, Debug, PartialEq, Eq)]
pub struct ControlState {
    running: bool,
    active: bool,
}

impl View for ControlState {
    type V = ControlView;

    closed spec fn view(&self) -> ControlView {
        ControlView { running: self.running, active: self.active }
    }
}

impl ControlState {
    /// The state at process start.
    pub fn new() -> (state: ControlState)
        ensures
            state@ == ControlView::initial(),
    {
        ControlState { running: true, active: false }
    }

    /// Whether the utility has not been told to quit.
    pub fn is_running(&self) -> (running: bool)
        ensures
            running == self@.running,
    {
        self.running
    }

    /// Clears the run flag. Stopping a stopped state changes nothing.
    pub fn stop_running(&mut self)
        ensures
            final(self)@ == old(self)@.stopped(),
    {
        self.running = false;
    }

    /// Whether the worker is to emit key presses.
    pub fn is_active(&self) -> (active: bool)
        ensures
            active == self@.active,
    {
        self.active
    }

    /// Replaces the active flag by its complement.
    pub fn toggle_active(&mut self)
        ensures
            final(self)@ == old(self)@.toggled(),
    {
        self.active = !self.active;
    }
}

/// Toggling twice gives back the flags that were there before.
pub proof fn lemma_toggle_is_its_own_inverse(flags: ControlView)
    ensures
        flags.toggled().toggled() == flags,
        flags.toggled() != flags,
{
}

/// Stopping is idempotent, and neither stopping nor toggling sets the run
/// flag again once it is cleared.
pub proof fn lemma_stop_is_final(flags: ControlView)
    ensures
        !flags.stopped().running,
        flags.stopped().stopped() == flags.stopped(),
        flags.stopped().active == flags.active,
        !flags.running ==> !flags.toggled().running,
{
}

} // verus!
