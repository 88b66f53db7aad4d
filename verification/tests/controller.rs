use black_screen::Action;
use black_screen::Controller;
use black_screen::Event;
use black_screen::Key;
use black_screen::ShutdownPhase;
use black_screen::convert;

fn two_windows() -> Controller {
    Controller::new(&vec![1, 2])
}

#[test]
fn startup_state() {
    let c = two_windows();
    assert_eq!(c.current_temperature(), 3000);
    assert_eq!(c.window_count(), 2);
    assert_eq!(c.current_color(), convert(3000));
    assert_eq!(c.shutdown_phase(), ShutdownPhase::Running);
    assert!(!c.wants_exit());
    assert!(c.has_window(1) && c.has_window(2));
    assert_eq!(c.fullscreen_state(1), Some(true));
    assert_eq!(c.fullscreen_state(2), Some(true));
    for w in &c.windows {
        assert_eq!(w.color, convert(3000));
    }
}

#[test]
fn plus_five_times_reaches_3500() {
    let mut c = two_windows();
    for _ in 0..5 {
        let a = c.handle_event(Event::Character { ch: '+' });
        assert_eq!(a, Action::ApplyColor { color: c.current_color() });
    }
    assert_eq!(c.current_temperature(), 3500);
    assert_eq!(c.current_color(), convert(3500));
    for w in &c.windows {
        assert_eq!(w.color, convert(3500));
    }
}

#[test]
fn minus_saturates_at_floor() {
    let mut c = two_windows();
    for _ in 0..5 {
        c.handle_event(Event::Character { ch: '+' });
    }
    assert_eq!(c.current_temperature(), 3500);
    for _ in 0..60 {
        c.handle_event(Event::Character { ch: '-' });
    }
    assert_eq!(c.current_temperature(), 1500);
    assert_eq!(c.current_color(), convert(1500));
    let a = c.handle_event(Event::Character { ch: '-' });
    assert_eq!(a, Action::Nothing);
    assert_eq!(c.current_temperature(), 1500);
    for w in &c.windows {
        assert_eq!(w.color, convert(1500));
    }
}

#[test]
fn plus_at_cap_is_noop() {
    let mut c = two_windows();
    for _ in 0..36 {
        c.handle_event(Event::Character { ch: '+' });
    }
    assert_eq!(c.current_temperature(), 6600);
    let color_at_cap = c.current_color();
    let a = c.handle_event(Event::Character { ch: '+' });
    assert_eq!(a, Action::Nothing);
    assert_eq!(c.current_temperature(), 6600);
    assert_eq!(c.current_color(), color_at_cap);
    for w in &c.windows {
        assert_eq!(w.color, color_at_cap);
    }
}

#[test]
fn equals_key_raises_like_plus() {
    let mut c = two_windows();
    let a = c.handle_event(Event::Character { ch: '=' });
    assert_eq!(c.current_temperature(), 3100);
    assert_eq!(a, Action::ApplyColor { color: convert(3100) });
}

#[test]
fn unhandled_character_ignored() {
    let mut c = two_windows();
    let a = c.handle_event(Event::Character { ch: 'x' });
    assert_eq!(a, Action::Nothing);
    assert_eq!(c.current_temperature(), 3000);
    assert_eq!(c.window_count(), 2);
}

#[test]
fn orderly_close_drains_then_exits() {
    let mut c = two_windows();
    let a = c.handle_event(Event::CloseRequested { window: 1 });
    assert_eq!(a, Action::DropWindow { window: 1 });
    assert_eq!(c.window_count(), 1);
    assert_eq!(c.shutdown_phase(), ShutdownPhase::Running);
    assert!(!c.wants_exit());

    let a = c.handle_event(Event::CloseRequested { window: 2 });
    assert_eq!(a, Action::DropWindow { window: 2 });
    assert_eq!(c.window_count(), 0);
    assert_eq!(c.shutdown_phase(), ShutdownPhase::Graceful);
    assert!(c.wants_exit());

    let a = c.handle_event(Event::IdleTick);
    assert_eq!(a, Action::ExitLoop);
    assert_eq!(c.shutdown_phase(), ShutdownPhase::Terminal);
}

#[test]
fn quit_all_force_clears_then_faults() {
    let mut c = two_windows();
    c.handle_event(Event::ModifiersChanged { command: true });
    let a = c.handle_event(Event::Key { window: 1, key: Key::Q, pressed: true });
    assert_eq!(a, Action::Nothing);
    assert!(c.wants_exit());
    assert_eq!(c.shutdown_phase(), ShutdownPhase::Running);
    assert_eq!(c.window_count(), 2);

    let a = c.handle_event(Event::IdleTick);
    assert_eq!(a, Action::DropAll);
    assert_eq!(c.window_count(), 0);
    assert_eq!(c.shutdown_phase(), ShutdownPhase::Running);

    let a = c.handle_event(Event::IdleTick);
    assert_eq!(a, Action::Fault);
}

#[test]
fn idle_tick_without_exit_request_is_noop() {
    let mut c = two_windows();
    let a = c.handle_event(Event::IdleTick);
    assert_eq!(a, Action::Nothing);
    assert_eq!(c.window_count(), 2);
    assert_eq!(c.shutdown_phase(), ShutdownPhase::Running);
}

#[test]
fn held_w_fires_once() {
    let mut c = two_windows();
    c.handle_event(Event::ModifiersChanged { command: true });
    let a = c.handle_event(Event::Key { window: 1, key: Key::W, pressed: true });
    assert_eq!(a, Action::DropWindow { window: 1 });
    assert_eq!(c.window_count(), 1);

    for _ in 0..10 {
        let a = c.handle_event(Event::Key { window: 2, key: Key::W, pressed: true });
        assert_eq!(a, Action::Nothing);
        assert_eq!(c.window_count(), 1);
    }

    c.handle_event(Event::Key { window: 2, key: Key::W, pressed: false });
    let a = c.handle_event(Event::Key { window: 2, key: Key::W, pressed: true });
    assert_eq!(a, Action::DropWindow { window: 2 });
    assert_eq!(c.window_count(), 0);
    assert_eq!(c.shutdown_phase(), ShutdownPhase::Graceful);
}

#[test]
fn held_q_fires_once() {
    let mut c = two_windows();
    c.handle_event(Event::ModifiersChanged { command: true });
    c.handle_event(Event::Key { window: 1, key: Key::Q, pressed: true });
    assert!(c.wants_exit());
    for _ in 0..10 {
        let a = c.handle_event(Event::Key { window: 1, key: Key::Q, pressed: true });
        assert_eq!(a, Action::Nothing);
    }
    assert_eq!(c.window_count(), 2);
}

#[test]
fn shortcuts_gated_by_modifier() {
    let mut c = two_windows();
    let a = c.handle_event(Event::Key { window: 1, key: Key::W, pressed: true });
    assert_eq!(a, Action::Nothing);
    let a = c.handle_event(Event::Key { window: 1, key: Key::Q, pressed: true });
    assert_eq!(a, Action::Nothing);
    assert_eq!(c.window_count(), 2);
    assert!(!c.wants_exit());

    c.handle_event(Event::ModifiersChanged { command: true });
    c.handle_event(Event::ModifiersChanged { command: false });
    let a = c.handle_event(Event::Key { window: 1, key: Key::W, pressed: true });
    assert_eq!(a, Action::Nothing);
    assert_eq!(c.window_count(), 2);
}

#[test]
fn escape_closes_focused_window() {
    let mut c = two_windows();
    let a = c.handle_event(Event::Key { window: 2, key: Key::Escape, pressed: true });
    assert_eq!(a, Action::Nothing);
    assert_eq!(c.window_count(), 2);

    let a = c.handle_event(Event::Key { window: 2, key: Key::Escape, pressed: false });
    assert_eq!(a, Action::DropWindow { window: 2 });
    assert_eq!(c.window_count(), 1);
    assert!(c.has_window(1) && !c.has_window(2));
}

#[test]
fn f_toggles_fullscreen() {
    let mut c = two_windows();
    let a = c.handle_event(Event::Key { window: 1, key: Key::F, pressed: false });
    assert_eq!(a, Action::SetFullscreen { window: 1, fullscreen: false });
    assert_eq!(c.fullscreen_state(1), Some(false));
    assert_eq!(c.fullscreen_state(2), Some(true));
    assert_eq!(c.current_temperature(), 3000);
    assert_eq!(c.window_count(), 2);

    let a = c.handle_event(Event::Key { window: 1, key: Key::F, pressed: false });
    assert_eq!(a, Action::SetFullscreen { window: 1, fullscreen: true });
    assert_eq!(c.fullscreen_state(1), Some(true));

    let a = c.handle_event(Event::Key { window: 99, key: Key::F, pressed: false });
    assert_eq!(a, Action::Nothing);
}

#[test]
fn close_of_unknown_window_changes_no_membership() {
    let mut c = two_windows();
    let a = c.handle_event(Event::CloseRequested { window: 99 });
    assert_eq!(a, Action::DropWindow { window: 99 });
    assert_eq!(c.window_count(), 2);
    assert_eq!(c.shutdown_phase(), ShutdownPhase::Running);
}

#[test]
fn other_keys_ignored() {
    let mut c = two_windows();
    let a = c.handle_event(Event::Key { window: 1, key: Key::Other, pressed: true });
    assert_eq!(a, Action::Nothing);
    let a = c.handle_event(Event::Key { window: 1, key: Key::Other, pressed: false });
    assert_eq!(a, Action::Nothing);
    assert_eq!(c.window_count(), 2);
    assert_eq!(c.current_temperature(), 3000);
}

#[test]
fn no_displays_at_startup() {
    let mut c = Controller::new(&vec![]);
    assert_eq!(c.window_count(), 0);
    assert_eq!(c.shutdown_phase(), ShutdownPhase::Running);
    assert!(!c.wants_exit());
    let a = c.handle_event(Event::IdleTick);
    assert_eq!(a, Action::Nothing);
}
