use fbgreeter::greeter::Action;
use fbgreeter::greeter::GreeterState;
use fbgreeter::greeter::Mode;
use fbgreeter::greeter::SessionTarget;
use fbgreeter::input::Key;

fn targets(n: usize) -> Vec<SessionTarget> {
    (0..n)
        .map(|i| SessionTarget { name: format!("session-{i}"), command: vec![format!("cmd-{i}")] })
        .collect()
}

fn fresh() -> GreeterState {
    GreeterState::new(targets(3), 1)
}

fn feed_text(state: &mut GreeterState, text: &str) {
    for &b in text.as_bytes() {
        let a = state.handle_key(Key::Other(b));
        assert!(matches!(a, Action::Continue));
    }
}

#[test]
fn starts_editing_username() {
    let s = fresh();
    assert_eq!(s.mode, Mode::EditingUsername);
    assert_eq!(s.target_index, 1);
    assert!(!s.failure);
    assert_eq!(s.username.text(), "");
    assert_eq!(s.password.text(), "");
}

#[test]
fn username_entry_then_return_moves_to_password() {
    // Feed 'a', 'b', 'c', Return: mode becomes EditingPassword, the
    // username reads "abc" with the cursor at byte 3.
    let mut s = fresh();
    feed_text(&mut s, "abc");
    let a = s.handle_key(Key::Return);
    assert!(matches!(a, Action::Continue));
    assert_eq!(s.mode, Mode::EditingPassword);
    assert_eq!(s.username.text(), "abc");
    assert_eq!(s.username.cursor_byte_offset(), 3);
}

#[test]
fn return_with_empty_username_stays() {
    let mut s = fresh();
    let a = s.handle_key(Key::Return);
    assert!(matches!(a, Action::Continue));
    assert_eq!(s.mode, Mode::EditingUsername);
}

#[test]
fn empty_password_submit_is_refused() {
    // Return in EditingPassword with an empty password never submits:
    // focus returns to the username prompt and the username is cleared.
    let mut s = fresh();
    feed_text(&mut s, "alice");
    s.handle_key(Key::Return);
    assert_eq!(s.mode, Mode::EditingPassword);
    let a = s.handle_key(Key::Return);
    assert!(matches!(a, Action::Continue), "an empty password must not submit");
    assert_eq!(s.mode, Mode::EditingUsername);
    assert_eq!(s.username.text(), "");
}

#[test]
fn submit_hands_out_credentials_and_clears_fields() {
    let mut s = fresh();
    feed_text(&mut s, "alice");
    s.handle_key(Key::Return);
    feed_text(&mut s, "hunter2");
    let a = s.handle_key(Key::Return);
    match a {
        Action::Submit(c) => {
            assert_eq!(c.username, "alice");
            assert_eq!(c.password, "hunter2");
        },
        other => panic!("expected a submit, got {other:?}"),
    }
    assert_eq!(s.username.text(), "");
    assert_eq!(s.password.text(), "");
    assert_eq!(s.mode, Mode::EditingPassword);
}

#[test]
fn failed_login_returns_to_username_with_failure_flag() {
    let mut s = fresh();
    feed_text(&mut s, "alice");
    s.handle_key(Key::Return);
    feed_text(&mut s, "wrong");
    let a = s.handle_key(Key::Return);
    assert!(matches!(a, Action::Submit(_)));
    s.apply_auth_result(false);
    assert_eq!(s.mode, Mode::EditingUsername);
    assert!(s.failure);
}

#[test]
fn successful_login_leaves_state_as_is() {
    let mut s = fresh();
    feed_text(&mut s, "alice");
    s.handle_key(Key::Return);
    feed_text(&mut s, "pw");
    let a = s.handle_key(Key::Return);
    assert!(matches!(a, Action::Submit(_)));
    s.apply_auth_result(true);
    assert_eq!(s.mode, Mode::EditingPassword);
    assert!(!s.failure);
}

#[test]
fn interrupt_cancels_in_every_mode() {
    // The interrupt byte's key ends the loop with a single cancel action in
    // every mode, with both fields cleared.
    for key in [Key::CtrlC, Key::CtrlD] {
        for setup in 0..3 {
            let mut s = fresh();
            feed_text(&mut s, "alice");
            s.handle_key(Key::Return);
            feed_text(&mut s, "pw");
            match setup {
                0 => {
                    s.handle_key(Key::Up); // to EditingUsername
                    s.handle_key(Key::Up); // to SelectingSession
                    assert_eq!(s.mode, Mode::SelectingSession);
                },
                1 => {
                    s.handle_key(Key::Up);
                    assert_eq!(s.mode, Mode::EditingUsername);
                },
                _ => assert_eq!(s.mode, Mode::EditingPassword),
            }
            let a = s.handle_key(key);
            assert!(matches!(a, Action::Cancel));
            assert_eq!(s.username.text(), "");
            assert_eq!(s.password.text(), "");
        }
    }
}

#[test]
fn mode_cycle_is_closed() {
    // Three forward transitions return to the starting mode, as do three
    // backward ones; down and up cancel out.
    for start in 0..3 {
        let mut s = fresh();
        for _ in 0..start {
            s.handle_key(Key::Down);
        }
        let here = s.mode;
        for _ in 0..3 {
            s.handle_key(Key::Down);
        }
        assert_eq!(s.mode, here);
        for _ in 0..3 {
            s.handle_key(Key::Up);
        }
        assert_eq!(s.mode, here);
        s.handle_key(Key::Down);
        s.handle_key(Key::Up);
        assert_eq!(s.mode, here);
    }
}

#[test]
fn tab_acts_like_down() {
    let mut s = fresh();
    s.handle_key(Key::Tab);
    assert_eq!(s.mode, Mode::EditingPassword);
    s.handle_key(Key::Tab);
    assert_eq!(s.mode, Mode::SelectingSession);
    s.handle_key(Key::Tab);
    assert_eq!(s.mode, Mode::EditingUsername);
}

#[test]
fn session_index_wraps_both_ways() {
    let mut s = fresh();
    s.handle_key(Key::Up);
    assert_eq!(s.mode, Mode::SelectingSession);
    assert_eq!(s.target_index, 1);
    s.handle_key(Key::Right);
    assert_eq!(s.target_index, 2);
    s.handle_key(Key::Right);
    assert_eq!(s.target_index, 0);
    s.handle_key(Key::Left);
    assert_eq!(s.target_index, 2);
    s.handle_key(Key::Left);
    assert_eq!(s.target_index, 1);
}

#[test]
fn editing_keys_are_ignored_in_session_mode() {
    let mut s = fresh();
    s.handle_key(Key::Up);
    assert_eq!(s.mode, Mode::SelectingSession);
    for key in [Key::Other(b'x'), Key::Backspace, Key::Delete, Key::CtrlU, Key::CtrlK] {
        let a = s.handle_key(key);
        assert!(matches!(a, Action::Continue));
        assert_eq!(s.mode, Mode::SelectingSession);
        assert_eq!(s.username.text(), "");
        assert_eq!(s.password.text(), "");
        assert_eq!(s.target_index, 1);
    }
}

#[test]
fn clear_line_keys_clear_only_focused_field() {
    let mut s = fresh();
    feed_text(&mut s, "alice");
    s.handle_key(Key::Return);
    feed_text(&mut s, "pw");
    s.handle_key(Key::CtrlU);
    assert_eq!(s.password.text(), "");
    assert_eq!(s.username.text(), "alice");
    s.handle_key(Key::Up);
    s.handle_key(Key::CtrlK);
    assert_eq!(s.username.text(), "");
}

#[test]
fn delete_key_removes_at_cursor() {
    let mut s = fresh();
    feed_text(&mut s, "abc");
    s.handle_key(Key::Left);
    s.handle_key(Key::Left);
    let a = s.handle_key(Key::Delete);
    assert!(matches!(a, Action::Continue));
    assert_eq!(s.username.text(), "ac");
    assert_eq!(s.username.cursor_byte_offset(), 1);
}

#[test]
fn backspace_key_removes_before_cursor() {
    let mut s = fresh();
    feed_text(&mut s, "abc");
    s.handle_key(Key::Backspace);
    assert_eq!(s.username.text(), "ab");
    s.handle_key(Key::Left);
    s.handle_key(Key::Left);
    let a = s.handle_key(Key::Backspace);
    assert!(matches!(a, Action::Continue));
    assert_eq!(s.username.text(), "ab");
    assert_eq!(s.username.cursor_byte_offset(), 0);
}

#[test]
fn unrecognized_sequences_are_ignored() {
    let mut s = fresh();
    feed_text(&mut s, "ab");
    for key in [Key::OtherEsc(0x71), Key::OtherCsi(0x5A)] {
        let a = s.handle_key(key);
        assert!(matches!(a, Action::Continue));
        assert_eq!(s.mode, Mode::EditingUsername);
        assert_eq!(s.username.text(), "ab");
        assert_eq!(s.username.cursor_byte_offset(), 2);
    }
}

#[test]
fn switching_modes_resets_cursor_to_field_end() {
    let mut s = fresh();
    feed_text(&mut s, "abc");
    s.handle_key(Key::Left);
    s.handle_key(Key::Left);
    assert_eq!(s.username.cursor_byte_offset(), 1);
    s.handle_key(Key::Down);
    s.handle_key(Key::Up);
    assert_eq!(s.mode, Mode::EditingUsername);
    assert_eq!(s.username.cursor_byte_offset(), 3);
}
