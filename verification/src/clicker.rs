//! The periodic worker: what it does in one turn of its loop.

use vstd::prelude::*;
use crate::arguments::Arguments;
use crate::control::ControlState;
use crate::control::ControlView;

verus! {

/// Milliseconds that the worker waits, while inactive, before it looks at the
/// flags again.
pub const IDLE_POLL_MS: u64 = 100;

/// What the worker does in one turn of its loop.
#[derive(Clone, Copy, Debug, PartialEq, Eq, Structural)]
pub enum ClickerAction {
    /// Emit one press and release of `key`, then wait `pause_ms` milliseconds.
    Click { key: char, pause_ms: u64 },
    /// Emit nothing and wait `pause_ms` milliseconds.
    Idle { pause_ms: u64 },
    /// Leave the loop and end the whole process.
    Exit,
}

/// The worker's turn for given flags: the run flag is looked at first, then
/// the active flag.
pub open spec fn next_action(flags: ControlView, arguments: Arguments) -> ClickerAction {
    if !flags.running {
        ClickerAction::Exit
    } else if flags.active {
        ClickerAction::Click { key: arguments.key, pause_ms: arguments.interval_ms }
    } else {
        ClickerAction::Idle { pause_ms: IDLE_POLL_MS }
    }
}

/// Decides one turn of the worker's loop from the flags as they are now.
pub fn clicker_step(control: &ControlState, arguments: &Arguments) -> (action: ClickerAction)
    ensures
        action == next_action(control@, *arguments),
{
    if !control.is_running() {
        ClickerAction::Exit
    } else if control.is_active() {
        ClickerAction::Click { key: arguments.key, pause_ms: arguments.interval_ms }
    } else {
        ClickerAction::Idle { pause_ms: IDLE_POLL_MS }
    }
}

/// The worker emits exactly while the flags say running and active, and then
/// the configured key with the configured interval as its pause; while
/// running and inactive it only waits for the poll interval; once the run
/// flag is clear it exits, whatever the active flag says.
pub proof fn lemma_worker_follows_flags(flags: ControlView, arguments: Arguments)
    ensures
        (next_action(flags, arguments) is Click) <==> flags.running && flags.active,
        (next_action(flags, arguments) is Idle) <==> flags.running && !flags.active,
        (next_action(flags, arguments) is Exit) <==> !flags.running,
        flags.running && flags.active ==> next_action(flags, arguments) == (ClickerAction::Click {
            key: arguments.key,
            pause_ms: arguments.interval_ms,
        }),
        flags.running && !flags.active ==> next_action(flags, arguments) == (ClickerAction::Idle {
            pause_ms: 100,
        }),
{
}

} // verus!
