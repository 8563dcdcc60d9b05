//! The hotkey listener: a two-bit modifier state machine that recognises the
//! toggle chord (Shift+Ctrl+F11) and the quit chord (Shift+Ctrl+Q).

use vstd::prelude::*;
use crate::control::ControlState;
use crate::control::ControlView;

verus! {

/// The identity of a key, as far as the listener tells keys apart.
#[derive(Clone, Copy, Debug, PartialEq, Eq, Structural)]
pub enum Key {
    ShiftLeft,
    ShiftRight,
    ControlLeft,
    ControlRight,
    /// The key that, in a chord, starts and stops the emissions.
    F11,
    /// The key that, in a chord, ends the application.
    KeyQ,
    /// Any other key.
    Other,
}

impl Key {
    /// Either of the two Shift keys.
    pub open spec fn is_shift(self) -> bool {
        self == Key::ShiftLeft || self == Key::ShiftRight
    }

    /// Either of the two Ctrl keys.
    pub open spec fn is_ctrl(self) -> bool {
        self == Key::ControlLeft || self == Key::ControlRight
    }
}

/// One event of the global input stream.
#[derive(Clone, Copy, Debug, PartialEq, Eq, Structural)]
pub enum KeyEvent {
    /// A key went down (or repeats while held).
    Press(Key),
    /// A key went up.
    Release(Key),
    /// Anything that is no key event, such as pointer movement.
    Other,
}

/// Which modifier keys are held, as of the last event processed.
#[derive(Clone, Copy, Debug, PartialEq, Eq, Structural)]
pub struct Modifiers {
    pub shift: bool,
    pub ctrl: bool,
}

/// What an event asks of the shared control state.
#[derive(Clone, Copy, Debug, PartialEq, Eq, Structural)]
pub enum HotkeyAction {
    /// The event is no chord.
    Nothing,
    /// The toggle chord: flip the active flag.
    ToggleActive,
    /// The quit chord: clear the run flag and tell the user.
    StopRunning,
}

impl Modifiers {
    /// The state before any event: no modifier held.
    pub open spec fn initial() -> Modifiers {
        Modifiers { shift: false, ctrl: false }
    }

    /// Both Shift and Ctrl are held.
    pub open spec fn chord_ready(self) -> bool {
        self.shift && self.ctrl
    }

    /// The modifier state after `event`: a press of a Shift or Ctrl key sets
    /// its flag, a release clears it, and nothing else touches either flag.
    pub open spec fn after(self, event: KeyEvent) -> Modifiers {
        match event {
            KeyEvent::Press(key) => Modifiers {
                shift: self.shift || key.is_shift(),
                ctrl: self.ctrl || key.is_ctrl(),
            },
            KeyEvent::Release(key) => Modifiers {
                shift: self.shift && !key.is_shift(),
                ctrl: self.ctrl && !key.is_ctrl(),
            },
            KeyEvent::Other => self,
        }
    }

    /// What `event` asks for, given the modifiers held when it arrives.
    pub open spec fn action_for(self, event: KeyEvent) -> HotkeyAction {
        if self.chord_ready() && event == KeyEvent::Press(Key::F11) {
            HotkeyAction::ToggleActive
        } else if self.chord_ready() && event == KeyEvent::Press(Key::KeyQ) {
            HotkeyAction::StopRunning
        } else {
            HotkeyAction::Nothing
        }
    }

    /// The state before any event.
    pub fn new() -> (modifiers: Modifiers)
        ensures
            modifiers == Modifiers::initial(),
    {
        Modifiers { shift: false, ctrl: false }
    }
}

impl HotkeyAction {
    /// The flags after the action was carried out on `flags`.
    pub open spec fn applied_to(self, flags: ControlView) -> ControlView {
        match self {
            HotkeyAction::Nothing => flags,
            HotkeyAction::ToggleActive => flags.toggled(),
            HotkeyAction::StopRunning => flags.stopped(),
        }
    }
}

/// Processes one event: updates the modifier state, and on a chord flips or
/// clears the matching flag of `control`. Returns what was done, so that the
/// caller can tell the user of a shutdown.
pub fn listen_to_hotkeys(
    event: KeyEvent,
    modifiers: &mut Modifiers,
    control: &mut ControlState,
) -> (action: HotkeyAction)
    ensures
        action == old(modifiers).action_for(event),
        *final(modifiers) == old(modifiers).after(event),
        final(control)@ == action.applied_to(old(control)@),
{
    let mut action = HotkeyAction::Nothing;
    match event {
        KeyEvent::Press(key) => {
            match key {
                Key::ShiftLeft | Key::ShiftRight => {
                    modifiers.shift = true;
                },
                Key::ControlLeft | Key::ControlRight => {
                    modifiers.ctrl = true;
                },
                Key::F11 => {
                    if modifiers.shift && modifiers.ctrl {
                        control.toggle_active();
                        action = HotkeyAction::ToggleActive;
                    }
                },
                Key::KeyQ => {
                    if modifiers.shift && modifiers.ctrl {
                        control.stop_running();
                        action = HotkeyAction::StopRunning;
                    }
                },
                Key::Other => {},
            }
        },
        KeyEvent::Release(key) => {
            match key {
                Key::ShiftLeft | Key::ShiftRight => {
                    modifiers.shift = false;
                },
                Key::ControlLeft | Key::ControlRight => {
                    modifiers.ctrl = false;
                },
                _ => {},
            }
        },
        KeyEvent::Other => {},
    }
    action
}

/// The notice shown to the user when the quit chord ends the application.
pub fn termination_notice() -> (notice: String)
    ensures
        notice@ == "Shift+Ctrl+Q detected, ending application ..."@,
{
    "Shift+Ctrl+Q detected, ending application ...".to_string()
}

/// Releasing a modifier whose flag is clear leaves that flag clear, and the
/// other flag as it was.
pub proof fn lemma_release_of_unheld_modifier(modifiers: Modifiers, key: Key)
    ensures
        key.is_shift() && !modifiers.shift ==> modifiers.after(KeyEvent::Release(key)) == modifiers,
        key.is_ctrl() && !modifiers.ctrl ==> modifiers.after(KeyEvent::Release(key)) == modifiers,
        !modifiers.shift ==> !modifiers.after(KeyEvent::Release(key)).shift,
        !modifiers.ctrl ==> !modifiers.after(KeyEvent::Release(key)).ctrl,
{
}

/// After a press or a release of a modifier key, of either side, the state
/// says of that modifier what the event said; a repeated press changes
/// nothing.
pub proof fn lemma_modifiers_follow_last_event(modifiers: Modifiers, key: Key)
    ensures
        key.is_shift() ==> modifiers.after(KeyEvent::Press(key)).shift && !modifiers.after(
            KeyEvent::Release(key),
        ).shift,
        key.is_ctrl() ==> modifiers.after(KeyEvent::Press(key)).ctrl && !modifiers.after(
            KeyEvent::Release(key),
        ).ctrl,
        modifiers.after(KeyEvent::Press(key)).after(KeyEvent::Press(key)) == modifiers.after(
            KeyEvent::Press(key),
        ),
        !key.is_shift() && !key.is_ctrl() ==> modifiers.after(KeyEvent::Press(key)) == modifiers
            && modifiers.after(KeyEvent::Release(key)) == modifiers,
{
}

/// An event acts on the flags only as a press of F11 or of Q while both
/// modifiers are held; every other event leaves them alone.
pub proof fn lemma_only_chords_act(modifiers: Modifiers, event: KeyEvent)
    ensures
        modifiers.action_for(event) == HotkeyAction::ToggleActive <==> modifiers.shift
            && modifiers.ctrl && event == KeyEvent::Press(Key::F11),
        modifiers.action_for(event) == HotkeyAction::StopRunning <==> modifiers.shift
            && modifiers.ctrl && event == KeyEvent::Press(Key::KeyQ),
        modifiers.action_for(event) != HotkeyAction::Nothing ==> modifiers.after(event)
            == modifiers,
{
}

} // verus!
