//! What holds of whole runs: the listener's state and the flags, followed
//! over any sequence of events.

use vstd::prelude::*;
use crate::arguments::Arguments;
use crate::clicker::next_action;
use crate::clicker::ClickerAction;
use crate::control::ControlView;
use crate::hotkeys::HotkeyAction;
use crate::hotkeys::Key;
use crate::hotkeys::KeyEvent;
use crate::hotkeys::Modifiers;

verus! {

/// The listener's modifier state together with the shared flags.
pub struct Session {
    pub modifiers: Modifiers,
    pub control: ControlView,
}

impl Session {
    /// The session at process start.
    pub open spec fn initial() -> Session {
        Session { modifiers: Modifiers::initial(), control: ControlView::initial() }
    }

    /// The session after the listener processed `event`.
    pub open spec fn after(self, event: KeyEvent) -> Session {
        Session {
            modifiers: self.modifiers.after(event),
            control: self.modifiers.action_for(event).applied_to(self.control),
        }
    }

    /// The session after the listener processed `events`, first to last.
    pub open spec fn after_all(self, events: Seq<KeyEvent>) -> Session
        decreases events.len(),
    {
        if events.len() == 0 {
            self
        } else {
            self.after_all(events.drop_last()).after(events.last())
        }
    }

    /// The event at place `i` of `events` arrives as the toggle chord.
    pub open spec fn toggles_at(self, events: Seq<KeyEvent>, i: int) -> bool {
        self.after_all(events.take(i)).modifiers.action_for(events[i])
            == HotkeyAction::ToggleActive
    }

    /// How many of `events` arrive as the toggle chord.
    pub open spec fn toggle_count(self, events: Seq<KeyEvent>) -> nat
        decreases events.len(),
    {
        if events.len() == 0 {
            0
        } else if self.toggles_at(events, events.len() - 1) {
            self.toggle_count(events.drop_last()) + 1
        } else {
            self.toggle_count(events.drop_last())
        }
    }
}

/// The active flag differs from what it was exactly when an odd number of
/// events arrived as the toggle chord: each of them flips it once, and no
/// other event touches it.
pub proof fn lemma_active_counts_toggle_chords(session: Session, events: Seq<KeyEvent>)
    ensures
        session.after_all(events).control.active == (session.control.active != (
        session.toggle_count(events) % 2 == 1)),
    decreases events.len(),
{
    if events.len() > 0 {
        lemma_active_counts_toggle_chords(session, events.drop_last());
        assert(events.take(events.len() - 1) =~= events.drop_last());
    }
}

/// From process start, and for every configuration, the worker emits nothing
/// as long as no event has arrived as the toggle chord.
pub proof fn lemma_silent_until_toggle_chord(events: Seq<KeyEvent>, arguments: Arguments)
    requires
        forall|i: int| 0 <= i < events.len() ==> !Session::initial().toggles_at(events, i),
    ensures
        !Session::initial().after_all(events).control.active,
        !(next_action(Session::initial().after_all(events).control, arguments) is Click),
    decreases events.len(),
{
    if events.len() > 0 {
        let earlier = events.drop_last();
        assert forall|i: int| 0 <= i < earlier.len() implies !Session::initial().toggles_at(
            earlier,
            i,
        ) by {
            assert(earlier.take(i) =~= events.take(i));
            assert(!Session::initial().toggles_at(events, i));
        }
        lemma_silent_until_toggle_chord(earlier, arguments);
        assert(events.take(events.len() - 1) =~= earlier);
        assert(!Session::initial().toggles_at(events, events.len() - 1));
    }
}

/// Once the run flag is clear, no sequence of events sets it again, and the
/// worker's next turn is to exit.
pub proof fn lemma_stopped_stays_stopped(session: Session, events: Seq<KeyEvent>, arguments: Arguments)
    requires
        !session.control.running,
    ensures
        !session.after_all(events).control.running,
        next_action(session.after_all(events).control, arguments) == ClickerAction::Exit,
    decreases events.len(),
{
    if events.len() > 0 {
        lemma_stopped_stays_stopped(session, events.drop_last(), arguments);
    }
}

/// The quit chord clears the run flag whatever the active flag says, leaves
/// the active flag and the modifiers alone, and makes the worker's next turn
/// its exit.
pub proof fn lemma_quit_chord_ends_the_run(session: Session, arguments: Arguments)
    requires
        session.modifiers.shift,
        session.modifiers.ctrl,
    ensures
        !session.after(KeyEvent::Press(Key::KeyQ)).control.running,
        session.after(KeyEvent::Press(Key::KeyQ)).control.active == session.control.active,
        session.after(KeyEvent::Press(Key::KeyQ)).modifiers == session.modifiers,
        next_action(session.after(KeyEvent::Press(Key::KeyQ)).control, arguments)
            == ClickerAction::Exit,
{
}

/// The toggle chord flips the active flag and nothing else, so two of them in
/// a row give back the session that was there before.
pub proof fn lemma_toggle_chord_twice(session: Session)
    requires
        session.modifiers.shift,
        session.modifiers.ctrl,
    ensures
        session.after(KeyEvent::Press(Key::F11)).control == session.control.toggled(),
        session.after(KeyEvent::Press(Key::F11)).modifiers == session.modifiers,
        session.after(KeyEvent::Press(Key::F11)).after(KeyEvent::Press(Key::F11)) == session,
{
}

/// The modifier state after a sequence of events depends on the events
/// alone, not on the flags: the listener never reads them.
pub proof fn lemma_modifiers_depend_on_events_alone(a: Session, b: Session, events: Seq<KeyEvent>)
    requires
        a.modifiers == b.modifiers,
    ensures
        a.after_all(events).modifiers == b.after_all(events).modifiers,
    decreases events.len(),
{
    if events.len() > 0 {
        lemma_modifiers_depend_on_events_alone(a, b, events.drop_last());
    }
}

} // verus!
