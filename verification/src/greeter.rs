//! The interactive greeter state machine.
//!
//! [`GreeterState`] owns the whole UI state: the focused prompt, the two
//! editable fields, the selectable session targets and the transient
//! failed-submission flag.  One key event is handled per loop iteration by
//! [`GreeterState::handle_key`], whose contract is the transition table of
//! the greeter; the returned [`Action`] tells the event loop what outside
//! work — cancelling or logging in with the authentication service — the
//! event asks for.  The loop itself, the blocking reads and the drawing live
//! outside the library.

use vstd::prelude::*;

use crate::field::EditableField;
use crate::input::Key;

verus! {

/// Which prompt has the focus.  Exactly one is active; forward cyclic order
/// is session picker, username, password, and back to the session picker.
#[derive(Debug, Copy, Clone, PartialEq, Eq, Structural)]
pub enum Mode {
    SelectingSession,
    EditingUsername,
    EditingPassword,
}

/// The mode one forward transition (down or tab) away.
pub open spec fn next_mode(m: Mode) -> Mode {
    match m {
        Mode::SelectingSession => Mode::EditingUsername,
        Mode::EditingUsername => Mode::EditingPassword,
        Mode::EditingPassword => Mode::SelectingSession,
    }
}

/// The mode one backward transition (up) away.
pub open spec fn prev_mode(m: Mode) -> Mode {
    match m {
        Mode::SelectingSession => Mode::EditingPassword,
        Mode::EditingUsername => Mode::SelectingSession,
        Mode::EditingPassword => Mode::EditingUsername,
    }
}

/// Mode cycling is closed: with three modes in the cycle, three forward
/// transitions from any mode return to it, three backward transitions
/// likewise, and one step in either direction undoes one step in the other.
pub proof fn lemma_mode_cycle(m: Mode)
    ensures
        next_mode(next_mode(next_mode(m))) == m,
        prev_mode(prev_mode(prev_mode(m))) == m,
        prev_mode(next_mode(m)) == m,
        next_mode(prev_mode(m)) == m,
{
}

/// A selectable login session: a display name and the command line that
/// launches it.  Immutable once loaded.
#[derive(Debug, Clone)]
pub struct SessionTarget {
    pub name: String,
    pub command: Vec<String>,
}

/// Credentials handed out on submit.  They are moved out of the fields, and
/// the fields are replaced with fresh empty storage, so the state retains no
/// copy of them.
#[derive(Debug)]
pub struct Credentials {
    pub username: String,
    pub password: String,
}

/// What the event loop must do after an event was handled.
#[derive(Debug)]
pub enum Action {
    /// Nothing beyond redrawing; read the next key.
    Continue,
    /// Cancel the attempt with the authentication service and exit the loop
    /// without success.
    Cancel,
    /// Ask the authentication service to log in with these credentials and
    /// the selected session target, then report the outcome back through
    /// [`GreeterState::apply_auth_result`].
    Submit(Credentials),
}

/// The relation one advance-cursor keystroke establishes on a field.
pub open spec fn cursor_advanced(pre: EditableField, post: EditableField) -> bool {
    &&& post@ == pre@
    &&& post.cursor() == if pre.cursor() < pre@.len() {
        pre.cursor() + 1
    } else {
        pre.cursor()
    }
}

/// The relation one retreat-cursor keystroke establishes on a field.
pub open spec fn cursor_retreated(pre: EditableField, post: EditableField) -> bool {
    &&& post@ == pre@
    &&& post.cursor() == if pre.cursor() > 0 {
        pre.cursor() - 1
    } else {
        0
    }
}

/// The relation one backspace keystroke establishes on a field: the scalar
/// value before the cursor is removed, or nothing happens at the start.
pub open spec fn backspaced(pre: EditableField, post: EditableField) -> bool {
    if pre.cursor() == 0 {
        post == pre
    } else {
        post@ == pre@.remove(pre.cursor() - 1) && post.cursor() == pre.cursor() - 1
    }
}

/// The relation one delete keystroke establishes on a field: the scalar
/// value at the cursor is removed, or nothing happens at the end.
pub open spec fn deleted_at(pre: EditableField, post: EditableField) -> bool {
    if pre.cursor() == pre@.len() {
        post == pre
    } else {
        post@ == pre@.remove(pre.cursor()) && post.cursor() == pre.cursor()
    }
}

/// The relation one character keystroke establishes on a field: the scalar
/// is inserted at the cursor and the cursor advances past it.
pub open spec fn inserted(pre: EditableField, post: EditableField, c: char) -> bool {
    if pre.can_grow() {
        post@ == pre@.insert(pre.cursor(), c) && post.cursor() == pre.cursor() + 1
    } else {
        post == pre
    }
}

/// What switching the focus to mode `m` does: the newly focused field keeps
/// its text and gets its cursor put at the end; the other field is untouched.
pub open spec fn entered_mode(pre: GreeterState, post: GreeterState, m: Mode) -> bool {
    &&& post.mode == m
    &&& (m is EditingUsername ==> post.username@ == pre.username@ && post.username.cursor()
        == pre.username@.len() && post.password == pre.password)
    &&& (m is EditingPassword ==> post.password@ == pre.password@ && post.password.cursor()
        == pre.password@.len() && post.username == pre.username)
    &&& (m is SelectingSession ==> post.username == pre.username && post.password == pre.password)
}

/// The whole state of the interactive greeter, owned by the event loop and
/// mutated only while handling one key event.
#[derive(Debug)]
pub struct GreeterState {
    /// Which prompt has the focus.
    pub mode: Mode,
    pub username: EditableField,
    pub password: EditableField,
    /// The selectable sessions, in catalog order; never empty.
    pub targets: Vec<SessionTarget>,
    /// Index of the selected session target.
    pub target_index: usize,
    /// One-iteration flag: the last submission failed, and the background
    /// must be repainted on the next pass.
    pub failure: bool,
}

impl GreeterState {
    /// Well-formedness: both fields keep their cursor invariant, and the
    /// selected index points into the non-empty target list.
    pub open spec fn wf(self) -> bool {
        &&& self.username.inv()
        &&& self.password.inv()
        &&& self.targets@.len() > 0
        &&& self.target_index < self.targets@.len()
    }

    /// The initial state: empty fields, focus on the username prompt, the
    /// given session target selected.  The target list must be non-empty;
    /// a greeter with nothing to launch refuses to start.
    pub fn new(targets: Vec<SessionTarget>, initial_target: usize) -> (s: GreeterState)
        requires
            targets@.len() > 0,
            initial_target < targets@.len(),
        ensures
            s.wf(),
            s.mode == Mode::EditingUsername,
            s.username.is_blank(),
            s.password.is_blank(),
            s.targets == targets,
            s.target_index == initial_target,
            !s.failure,
    {
        GreeterState {
            mode: Mode::EditingUsername,
            username: EditableField::new(),
            password: EditableField::new(),
            targets,
            target_index: initial_target,
            failure: false,
        }
    }

    /// Switch the focus to mode `m`, putting the cursor at the end of the
    /// newly focused field.
    fn enter_mode(&mut self, m: Mode)
        requires
            old(self).wf(),
        ensures
            final(self).wf(),
            final(self).targets == old(self).targets,
            final(self).target_index == old(self).target_index,
            final(self).failure == old(self).failure,
            entered_mode(*old(self), *final(self), m),
    {
        self.mode = m;
        match m {
            Mode::SelectingSession => {},
            Mode::EditingUsername => self.username.move_cursor_to_end(),
            Mode::EditingPassword => self.password.move_cursor_to_end(),
        }
    }

    /// Move the focus one prompt forward in the cyclic order.
    pub fn goto_next_mode(&mut self)
        requires
            old(self).wf(),
        ensures
            final(self).wf(),
            final(self).targets == old(self).targets,
            final(self).target_index == old(self).target_index,
            final(self).failure == old(self).failure,
            entered_mode(*old(self), *final(self), next_mode(old(self).mode)),
    {
        let m = match self.mode {
            Mode::SelectingSession => Mode::EditingUsername,
            Mode::EditingUsername => Mode::EditingPassword,
            Mode::EditingPassword => Mode::SelectingSession,
        };
        self.enter_mode(m);
    }

    /// Move the focus one prompt backward in the cyclic order.
    pub fn goto_prev_mode(&mut self)
        requires
            old(self).wf(),
        ensures
            final(self).wf(),
            final(self).targets == old(self).targets,
            final(self).target_index == old(self).target_index,
            final(self).failure == old(self).failure,
            entered_mode(*old(self), *final(self), prev_mode(old(self).mode)),
    {
        let m = match self.mode {
            Mode::SelectingSession => Mode::EditingPassword,
            Mode::EditingUsername => Mode::SelectingSession,
            Mode::EditingPassword => Mode::EditingUsername,
        };
        self.enter_mode(m);
    }

    /// Handle one decoded key event.  The contract is the greeter's
    /// transition table: for every key and focused prompt it pins down the
    /// new state and the outside work the event loop owes.
    pub fn handle_key(&mut self, key: Key) -> (a: Action)
        requires
            old(self).wf(),
        ensures
            final(self).wf(),
            final(self).targets == old(self).targets,
            final(self).failure == old(self).failure,
            // Interrupt or end of input: cancel, in every mode, with both
            // fields cleared.
            (key == Key::CtrlC || key == Key::CtrlD) ==> {
                &&& a is Cancel
                &&& final(self).username.is_blank()
                &&& final(self).password.is_blank()
                &&& final(self).mode == old(self).mode
                &&& final(self).target_index == old(self).target_index
            },
            // Clear-line keys: empty the focused field.
            (key == Key::CtrlK || key == Key::CtrlU) ==> {
                &&& a is Continue
                &&& final(self).mode == old(self).mode
                &&& final(self).target_index == old(self).target_index
                &&& (old(self).mode is SelectingSession ==> *final(self) == *old(self))
                &&& (old(self).mode is EditingUsername ==> final(self).username.is_blank()
                    && final(self).password == old(self).password)
                &&& (old(self).mode is EditingPassword ==> final(self).password.is_blank()
                    && final(self).username == old(self).username)
            },
            key == Key::Backspace ==> {
                &&& a is Continue
                &&& final(self).mode == old(self).mode
                &&& final(self).target_index == old(self).target_index
                &&& (old(self).mode is SelectingSession ==> *final(self) == *old(self))
                &&& (old(self).mode is EditingUsername ==> backspaced(
                    old(self).username,
                    final(self).username,
                ) && final(self).password == old(self).password)
                &&& (old(self).mode is EditingPassword ==> backspaced(
                    old(self).password,
                    final(self).password,
                ) && final(self).username == old(self).username)
            },
            key == Key::Delete ==> {
                &&& a is Continue
                &&& final(self).mode == old(self).mode
                &&& final(self).target_index == old(self).target_index
                &&& (old(self).mode is SelectingSession ==> *final(self) == *old(self))
                &&& (old(self).mode is EditingUsername ==> deleted_at(
                    old(self).username,
                    final(self).username,
                ) && final(self).password == old(self).password)
                &&& (old(self).mode is EditingPassword ==> deleted_at(
                    old(self).password,
                    final(self).password,
                ) && final(self).username == old(self).username)
            },
            key == Key::Return ==> {
                &&& final(self).target_index == old(self).target_index
                &&& (old(self).mode is SelectingSession ==> a is Continue && entered_mode(
                    *old(self),
                    *final(self),
                    Mode::EditingUsername,
                ))
                &&& (old(self).mode is EditingUsername ==> {
                    &&& a is Continue
                    &&& (old(self).username@.len() > 0 ==> entered_mode(
                        *old(self),
                        *final(self),
                        Mode::EditingPassword,
                    ))
                    &&& (old(self).username@.len() == 0 ==> *final(self) == *old(self))
                })
                &&& (old(self).mode is EditingPassword ==> {
                    // A submit with an empty password is refused: no login is
                    // requested, the username is cleared, and the focus
                    // returns to the username prompt.
                    &&& (old(self).password@.len() == 0 ==> {
                        &&& a is Continue
                        &&& final(self).mode == Mode::EditingUsername
                        &&& final(self).username.is_blank()
                        &&& final(self).password == old(self).password
                    })
                    // A submit with a non-empty password hands out exactly
                    // the typed credentials and replaces both fields with
                    // fresh empty storage.
                    &&& (old(self).password@.len() > 0 ==> {
                        &&& a matches Action::Submit(c) && c.username@ == old(self).username@
                            && c.password@ == old(self).password@
                        &&& final(self).mode == Mode::EditingPassword
                        &&& final(self).username.is_blank()
                        &&& final(self).password.is_blank()
                    })
                })
            },
            key == Key::Up ==> {
                &&& a is Continue
                &&& final(self).target_index == old(self).target_index
                &&& entered_mode(*old(self), *final(self), prev_mode(old(self).mode))
            },
            (key == Key::Down || key == Key::Tab) ==> {
                &&& a is Continue
                &&& final(self).target_index == old(self).target_index
                &&& entered_mode(*old(self), *final(self), next_mode(old(self).mode))
            },
            key == Key::Right ==> {
                &&& a is Continue
                &&& final(self).mode == old(self).mode
                &&& (old(self).mode is SelectingSession ==> {
                    &&& final(self).target_index as int == (old(self).target_index + 1) % (
                    old(self).targets@.len() as int)
                    &&& final(self).username == old(self).username
                    &&& final(self).password == old(self).password
                })
                &&& (old(self).mode is EditingUsername ==> cursor_advanced(
                    old(self).username,
                    final(self).username,
                ) && final(self).password == old(self).password && final(self).target_index == old(
                    self,
                ).target_index)
                &&& (old(self).mode is EditingPassword ==> cursor_advanced(
                    old(self).password,
                    final(self).password,
                ) && final(self).username == old(self).username && final(self).target_index == old(
                    self,
                ).target_index)
            },
            key == Key::Left ==> {
                &&& a is Continue
                &&& final(self).mode == old(self).mode
                &&& (old(self).mode is SelectingSession ==> {
                    &&& final(self).target_index as int == if old(self).target_index == 0 {
                        old(self).targets@.len() - 1
                    } else {
                        old(self).target_index - 1
                    }
                    &&& final(self).username == old(self).username
                    &&& final(self).password == old(self).password
                })
                &&& (old(self).mode is EditingUsername ==> cursor_retreated(
                    old(self).username,
                    final(self).username,
                ) && final(self).password == old(self).password && final(self).target_index == old(
                    self,
                ).target_index)
                &&& (old(self).mode is EditingPassword ==> cursor_retreated(
                    old(self).password,
                    final(self).password,
                ) && final(self).username == old(self).username && final(self).target_index == old(
                    self,
                ).target_index)
            },
            key matches Key::Other(b) ==> {
                &&& a is Continue
                &&& final(self).mode == old(self).mode
                &&& final(self).target_index == old(self).target_index
                &&& (old(self).mode is SelectingSession ==> *final(self) == *old(self))
                &&& (old(self).mode is EditingUsername ==> inserted(
                    old(self).username,
                    final(self).username,
                    b as char,
                ) && final(self).password == old(self).password)
                &&& (old(self).mode is EditingPassword ==> inserted(
                    old(self).password,
                    final(self).password,
                    b as char,
                ) && final(self).username == old(self).username)
            },
            // Unrecognized escape and control sequences are silently ignored.
            (key matches Key::OtherEsc(_) || key matches Key::OtherCsi(_)) ==> *final(self)
                == *old(self) && a is Continue,
    {
        match key {
            Key::CtrlK | Key::CtrlU => {
                match self.mode {
                    Mode::SelectingSession => {},
                    Mode::EditingUsername => self.username.clear(),
                    Mode::EditingPassword => self.password.clear(),
                }
                Action::Continue
            },
            Key::CtrlC | Key::CtrlD => {
                self.username.clear();
                self.password.clear();
                Action::Cancel
            },
            Key::Backspace => {
                match self.mode {
                    Mode::SelectingSession => {},
                    Mode::EditingUsername => self.username.backspace(),
                    Mode::EditingPassword => self.password.backspace(),
                }
                Action::Continue
            },
            Key::Delete => {
                match self.mode {
                    Mode::SelectingSession => {},
                    Mode::EditingUsername => self.username.remove_at_cursor(),
                    Mode::EditingPassword => self.password.remove_at_cursor(),
                }
                Action::Continue
            },
            Key::Return => {
                match self.mode {
                    Mode::SelectingSession => {
                        self.enter_mode(Mode::EditingUsername);
                        Action::Continue
                    },
                    Mode::EditingUsername => {
                        if !self.username.is_empty() {
                            self.enter_mode(Mode::EditingPassword);
                        }
                        Action::Continue
                    },
                    Mode::EditingPassword => {
                        if self.password.is_empty() {
                            self.username.clear();
                            self.enter_mode(Mode::EditingUsername);
                            Action::Continue
                        } else {
                            let username = self.username.text();
                            let password = self.password.text();
                            self.username.clear();
                            self.password.clear();
                            Action::Submit(Credentials { username, password })
                        }
                    },
                }
            },
            Key::Up => {
                self.goto_prev_mode();
                Action::Continue
            },
            Key::Down | Key::Tab => {
                self.goto_next_mode();
                Action::Continue
            },
            Key::Right => {
                match self.mode {
                    Mode::SelectingSession => {
                        let len = self.targets.len();
                        self.target_index = (self.target_index + 1) % len;
                    },
                    Mode::EditingUsername => self.username.advance_cursor(),
                    Mode::EditingPassword => self.password.advance_cursor(),
                }
                Action::Continue
            },
            Key::Left => {
                match self.mode {
                    Mode::SelectingSession => {
                        if self.target_index == 0 {
                            self.target_index = self.targets.len() - 1;
                        } else {
                            self.target_index = self.target_index - 1;
                        }
                    },
                    Mode::EditingUsername => self.username.retreat_cursor(),
                    Mode::EditingPassword => self.password.retreat_cursor(),
                }
                Action::Continue
            },
            Key::Other(b) => {
                let c = b as char;
                match self.mode {
                    Mode::SelectingSession => {},
                    Mode::EditingUsername => self.username.insert_at_cursor(c),
                    Mode::EditingPassword => self.password.insert_at_cursor(c),
                }
                Action::Continue
            },
            Key::OtherEsc(_) | Key::OtherCsi(_) => Action::Continue,
        }
    }

    /// Record the outcome of the blocking authentication call that an
    /// [`Action::Submit`] asked for.  On success nothing changes and the
    /// event loop exits; on failure the focus returns to the username prompt
    /// and the one-iteration failure flag forces a background redraw on the
    /// next pass.
    pub fn apply_auth_result(&mut self, success: bool)
        requires
            old(self).wf(),
        ensures
            final(self).wf(),
            final(self).targets == old(self).targets,
            final(self).target_index == old(self).target_index,
            success ==> *final(self) == *old(self),
            !success ==> {
                &&& final(self).mode == Mode::EditingUsername
                &&& final(self).failure
                &&& final(self).username@ == old(self).username@
                &&& final(self).username.cursor() == old(self).username@.len()
                &&& final(self).password == old(self).password
            },
    {
        if !success {
            self.enter_mode(Mode::EditingUsername);
            self.failure = true;
        }
    }
}

} // verus!
