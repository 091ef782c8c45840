use tray_shell::close::{on_window_event, WindowEvent};
use tray_shell::dispatch::WindowStep;
use tray_shell::state::{get_minimize_to_tray, set_minimize_to_tray, TrayState};

#[test]
fn fresh_state_is_enabled() {
    let state = TrayState::new();
    assert!(get_minimize_to_tray(&state));
}

#[test]
fn default_state_is_enabled() {
    let state = TrayState::default();
    assert!(get_minimize_to_tray(&state));
}

#[test]
fn read_after_write_returns_written_value() {
    for b in [true, false] {
        for start in [true, false] {
            let mut state = TrayState::new();
            set_minimize_to_tray(&mut state, start);
            set_minimize_to_tray(&mut state, b);
            assert_eq!(get_minimize_to_tray(&state), b);
        }
    }
}

#[test]
fn reads_do_not_disturb_the_setting() {
    let mut state = TrayState::new();
    set_minimize_to_tray(&mut state, false);
    assert!(!get_minimize_to_tray(&state));
    assert!(!get_minimize_to_tray(&state));
    assert!(!get_minimize_to_tray(&state));
    set_minimize_to_tray(&mut state, true);
    assert!(get_minimize_to_tray(&state));
    assert!(get_minimize_to_tray(&state));
}

#[test]
fn last_write_wins() {
    let mut state = TrayState::new();
    set_minimize_to_tray(&mut state, false);
    set_minimize_to_tray(&mut state, true);
    set_minimize_to_tray(&mut state, false);
    assert!(!get_minimize_to_tray(&state));
}

#[test]
fn close_request_with_setting_on_hides_and_keeps_alive() {
    let state = TrayState::new();
    let steps = on_window_event(&state, WindowEvent::CloseRequested);
    assert_eq!(steps, vec![WindowStep::Hide, WindowStep::PreventClose]);
}

#[test]
fn close_request_with_setting_off_closes_normally() {
    let mut state = TrayState::new();
    set_minimize_to_tray(&mut state, false);
    let steps = on_window_event(&state, WindowEvent::CloseRequested);
    assert_eq!(steps, Vec::<WindowStep>::new());
}

#[test]
fn close_decision_is_taken_anew_at_each_request() {
    let mut state = TrayState::new();
    assert_eq!(on_window_event(&state, WindowEvent::CloseRequested).len(), 2);
    set_minimize_to_tray(&mut state, false);
    assert!(on_window_event(&state, WindowEvent::CloseRequested).is_empty());
    set_minimize_to_tray(&mut state, true);
    assert_eq!(
        on_window_event(&state, WindowEvent::CloseRequested),
        vec![WindowStep::Hide, WindowStep::PreventClose]
    );
}

#[test]
fn other_window_events_do_nothing() {
    let mut state = TrayState::new();
    assert!(on_window_event(&state, WindowEvent::Other).is_empty());
    set_minimize_to_tray(&mut state, false);
    assert!(on_window_event(&state, WindowEvent::Other).is_empty());
}
