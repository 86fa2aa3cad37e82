use fbgreeter::greeter::GreeterState;
use fbgreeter::greeter::Mode;
use fbgreeter::greeter::SessionTarget;
use fbgreeter::input::Key;
use fbgreeter::redraw::plan_redraw;

fn fresh() -> GreeterState {
    let targets = vec![
        SessionTarget { name: String::from("first"), command: vec![String::from("run-first")] },
        SessionTarget { name: String::from("second"), command: vec![String::from("run-second")] },
    ];
    GreeterState::new(targets, 0)
}

#[test]
fn no_state_change_issues_zero_draws() {
    // Deciding the redraw twice with no intervening state change issues
    // zero draws the second time.
    let mut s = fresh();
    for &b in b"abc" {
        s.handle_key(Key::Other(b));
    }
    let snap = s.take_snapshot();
    let plan = plan_redraw(&snap, &s);
    assert!(!plan.background);
    assert!(!plan.username);
    assert!(!plan.password);
    assert!(!plan.target);
    assert!(!plan.any());
    let again = plan_redraw(&snap, &s);
    assert!(!again.any());
}

#[test]
fn typing_redraws_only_the_fields() {
    let mut s = fresh();
    let snap = s.take_snapshot();
    s.handle_key(Key::Other(b'a'));
    let plan = plan_redraw(&snap, &s);
    assert!(!plan.background);
    assert!(plan.username);
    assert!(!plan.target);
    assert!(plan.any());
}

#[test]
fn mode_change_redraws_background_and_fields() {
    let mut s = fresh();
    let snap = s.take_snapshot();
    s.handle_key(Key::Down);
    assert_eq!(s.mode, Mode::EditingPassword);
    let plan = plan_redraw(&snap, &s);
    assert!(plan.background);
    assert!(plan.username);
    assert!(plan.password);
    assert!(!plan.target);
}

#[test]
fn cursor_motion_redraws_the_fields() {
    let mut s = fresh();
    for &b in b"ab" {
        s.handle_key(Key::Other(b));
    }
    let snap = s.take_snapshot();
    s.handle_key(Key::Left);
    let plan = plan_redraw(&snap, &s);
    assert!(!plan.background);
    assert!(plan.username);
    assert!(plan.password);
    assert!(!plan.target);
}

#[test]
fn selecting_another_session_redraws_the_session_line() {
    let mut s = fresh();
    s.handle_key(Key::Up);
    assert_eq!(s.mode, Mode::SelectingSession);
    let snap = s.take_snapshot();
    s.handle_key(Key::Right);
    let plan = plan_redraw(&snap, &s);
    assert!(plan.target);
    assert!(!plan.background);
}

#[test]
fn failure_flag_forces_one_background_redraw() {
    let mut s = fresh();
    for &b in b"u" {
        s.handle_key(Key::Other(b));
    }
    s.handle_key(Key::Return);
    for &b in b"p" {
        s.handle_key(Key::Other(b));
    }
    s.handle_key(Key::Return);
    s.apply_auth_result(false);
    let snap = s.take_snapshot();
    // take_snapshot consumed the flag; the pass that produced the snapshot
    // has drawn the failure background, so the next unchanged pass is quiet.
    assert!(!s.failure);
    let plan = plan_redraw(&snap, &s);
    assert!(!plan.any());
}

#[test]
fn pending_failure_redraws_background() {
    let mut s = fresh();
    let snap = s.take_snapshot();
    for &b in b"u" {
        s.handle_key(Key::Other(b));
    }
    s.handle_key(Key::Return);
    for &b in b"p" {
        s.handle_key(Key::Other(b));
    }
    s.handle_key(Key::Return);
    s.apply_auth_result(false);
    assert!(s.failure);
    let plan = plan_redraw(&snap, &s);
    assert!(plan.background);
}
