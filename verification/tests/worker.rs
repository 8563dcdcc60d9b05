use auto_key::arguments::Arguments;
use auto_key::clicker::{clicker_step, ClickerAction, IDLE_POLL_MS};
use auto_key::control::ControlState;
use auto_key::hotkeys::{listen_to_hotkeys, Key, KeyEvent, Modifiers};

fn configuration() -> Arguments {
    Arguments { interval_ms: 250, key: 'x' }
}

#[test]
fn control_state_starts_running_and_inactive() {
    let control = ControlState::new();
    assert!(control.is_running());
    assert!(!control.is_active());
}

#[test]
fn toggle_twice_gives_back_the_flag() {
    let mut control = ControlState::new();
    let before = control;
    control.toggle_active();
    assert!(control.is_active());
    assert_ne!(control, before);
    control.toggle_active();
    assert_eq!(control, before);
    control.stop_running();
    let stopped = control;
    control.toggle_active();
    control.toggle_active();
    assert_eq!(control, stopped);
}

#[test]
fn stop_running_is_idempotent_and_keeps_the_active_flag() {
    let mut control = ControlState::new();
    control.toggle_active();
    control.stop_running();
    assert!(!control.is_running());
    assert!(control.is_active());
    let once = control;
    control.stop_running();
    assert_eq!(control, once);
    control.toggle_active();
    assert!(!control.is_running());
}

#[test]
fn idle_poll_interval_is_100_ms() {
    assert_eq!(IDLE_POLL_MS, 100);
}

#[test]
fn worker_idles_at_start_for_every_configuration() {
    for arguments in [
        Arguments { interval_ms: 0, key: 'a' },
        Arguments { interval_ms: 1, key: 'Z' },
        Arguments { interval_ms: u64::MAX, key: 'ß' },
    ] {
        let action = clicker_step(&ControlState::new(), &arguments);
        assert_eq!(action, ClickerAction::Idle { pause_ms: 100 });
    }
}

#[test]
fn worker_stays_idle_until_the_toggle_chord() {
    let mut modifiers = Modifiers::new();
    let mut control = ControlState::new();
    let events = [
        KeyEvent::Press(Key::F11),
        KeyEvent::Press(Key::ShiftLeft),
        KeyEvent::Press(Key::F11),
        KeyEvent::Release(Key::ShiftLeft),
        KeyEvent::Press(Key::ControlRight),
        KeyEvent::Press(Key::F11),
        KeyEvent::Other,
        KeyEvent::Press(Key::Other),
        KeyEvent::Press(Key::ShiftRight),
        KeyEvent::Release(Key::F11),
    ];
    for event in events {
        listen_to_hotkeys(event, &mut modifiers, &mut control);
        assert_eq!(clicker_step(&control, &configuration()), ClickerAction::Idle { pause_ms: 100 });
    }
    listen_to_hotkeys(KeyEvent::Press(Key::F11), &mut modifiers, &mut control);
    assert_eq!(
        clicker_step(&control, &configuration()),
        ClickerAction::Click { key: 'x', pause_ms: 250 }
    );
}

#[test]
fn worker_clicks_the_configured_key_while_active() {
    let mut control = ControlState::new();
    control.toggle_active();
    let arguments = Arguments { interval_ms: 1500, key: 'q' };
    assert_eq!(clicker_step(&control, &arguments), ClickerAction::Click { key: 'q', pause_ms: 1500 });
    assert_eq!(clicker_step(&control, &arguments), ClickerAction::Click { key: 'q', pause_ms: 1500 });
    control.toggle_active();
    assert_eq!(clicker_step(&control, &arguments), ClickerAction::Idle { pause_ms: 100 });
}

#[test]
fn worker_exits_once_stopped_whatever_the_active_flag() {
    let mut control = ControlState::new();
    control.stop_running();
    assert_eq!(clicker_step(&control, &configuration()), ClickerAction::Exit);
    let mut control = ControlState::new();
    control.toggle_active();
    control.stop_running();
    assert_eq!(clicker_step(&control, &configuration()), ClickerAction::Exit);
}

#[test]
fn quit_chord_makes_the_worker_exit() {
    for active in [false, true] {
        let mut modifiers = Modifiers::new();
        let mut control = ControlState::new();
        listen_to_hotkeys(KeyEvent::Press(Key::ShiftLeft), &mut modifiers, &mut control);
        listen_to_hotkeys(KeyEvent::Press(Key::ControlLeft), &mut modifiers, &mut control);
        if active {
            listen_to_hotkeys(KeyEvent::Press(Key::F11), &mut modifiers, &mut control);
        }
        assert_ne!(clicker_step(&control, &configuration()), ClickerAction::Exit);
        listen_to_hotkeys(KeyEvent::Press(Key::KeyQ), &mut modifiers, &mut control);
        assert_eq!(clicker_step(&control, &configuration()), ClickerAction::Exit);
    }
}
