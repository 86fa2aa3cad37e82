//! Minimal-redraw bookkeeping.
//!
//! The greeter repaints only what changed: the event loop keeps the
//! [`Snapshot`] of what the previous pass drew, and [`plan_redraw`] diffs the
//! current state against it.  The background and prompts are repainted only
//! on a mode change or after a failed submission; a field only when its
//! length changed, the mode changed or the cursor moved; the session line
//! only when the selected index changed.  A frame flip is owed only when
//! some region was drawn.

use vstd::prelude::*;

use crate::field::text_width;
use crate::greeter::GreeterState;
use crate::greeter::Mode;

verus! {

/// What the previous pass drew: the lengths, mode, cursor and index the next
/// redraw decision diffs against.
#[derive(Debug, Copy, Clone, PartialEq, Eq, Structural)]
pub struct Snapshot {
    pub mode: Mode,
    /// Byte length of the username field as drawn.
    pub username_len: usize,
    /// Byte length of the password field as drawn.
    pub password_len: usize,
    /// Byte offset of the cursor in the focused field as drawn; 0 while the
    /// session picker was focused.
    pub cursor: usize,
    pub target_index: usize,
}

/// Which regions the current pass must repaint.
#[derive(Debug, Copy, Clone, PartialEq, Eq, Structural)]
pub struct RedrawPlan {
    /// Background and prompt captions.
    pub background: bool,
    pub username: bool,
    pub password: bool,
    /// The session-target line.
    pub target: bool,
}

impl RedrawPlan {
    /// No region needs repainting.
    pub open spec fn none_spec(self) -> bool {
        !self.background && !self.username && !self.password && !self.target
    }

    /// Whether anything must be drawn — and with it, whether a frame flip is
    /// owed this pass.
    pub fn any(&self) -> (b: bool)
        ensures
            b == !self.none_spec(),
    {
        self.background || self.username || self.password || self.target
    }
}

/// The byte offset of the cursor in the focused field; 0 while the session
/// picker is focused.
pub open spec fn active_cursor(s: GreeterState) -> int {
    match s.mode {
        Mode::SelectingSession => 0,
        Mode::EditingUsername => s.username.cursor_byte(),
        Mode::EditingPassword => s.password.cursor_byte(),
    }
}

/// The snapshot records exactly the given state.
pub open spec fn snapshot_matches(snap: Snapshot, s: GreeterState) -> bool {
    &&& snap.mode == s.mode
    &&& snap.username_len as int == text_width(s.username@)
    &&& snap.password_len as int == text_width(s.password@)
    &&& snap.cursor as int == active_cursor(s)
    &&& snap.target_index == s.target_index
}

/// The redraw decision, as a function of the previous snapshot and the
/// current state.
pub open spec fn plan_spec(prev: Snapshot, s: GreeterState) -> RedrawPlan {
    let mode_changed = prev.mode != s.mode;
    let cursor_moved = prev.cursor as int != active_cursor(s);
    RedrawPlan {
        background: mode_changed || s.failure,
        username: prev.username_len as int != text_width(s.username@) || mode_changed
            || cursor_moved,
        password: prev.password_len as int != text_width(s.password@) || mode_changed
            || cursor_moved,
        target: prev.target_index != s.target_index,
    }
}

/// Executable form of [`active_cursor`].
fn active_cursor_offset(s: &GreeterState) -> (n: usize)
    requires
        s.wf(),
    ensures
        n as int == active_cursor(*s),
{
    match s.mode {
        Mode::SelectingSession => 0,
        Mode::EditingUsername => s.username.cursor_byte_offset(),
        Mode::EditingPassword => s.password.cursor_byte_offset(),
    }
}

/// Decide which regions this pass must repaint, by diffing the state against
/// what the previous pass drew.
pub fn plan_redraw(prev: &Snapshot, s: &GreeterState) -> (p: RedrawPlan)
    requires
        s.wf(),
    ensures
        p == plan_spec(*prev, *s),
{
    let mode_changed = prev.mode != s.mode;
    let cursor_moved = prev.cursor != active_cursor_offset(s);
    RedrawPlan {
        background: mode_changed || s.failure,
        username: prev.username_len != s.username.byte_len() || mode_changed || cursor_moved,
        password: prev.password_len != s.password.byte_len() || mode_changed || cursor_moved,
        target: prev.target_index != s.target_index,
    }
}

impl GreeterState {
    /// Record what this pass drew and consume the one-iteration failure
    /// flag.  The returned snapshot is what the next pass diffs against.
    pub fn take_snapshot(&mut self) -> (snap: Snapshot)
        requires
            old(self).wf(),
        ensures
            final(self).wf(),
            snapshot_matches(snap, *old(self)),
            snapshot_matches(snap, *final(self)),
            final(self).mode == old(self).mode,
            final(self).username == old(self).username,
            final(self).password == old(self).password,
            final(self).targets == old(self).targets,
            final(self).target_index == old(self).target_index,
            !final(self).failure,
    {
        let snap = Snapshot {
            mode: self.mode,
            username_len: self.username.byte_len(),
            password_len: self.password.byte_len(),
            cursor: active_cursor_offset(self),
            target_index: self.target_index,
        };
        self.failure = false;
        snap
    }
}

/// Redraw decisions are diffed against the previous pass: when the snapshot
/// matches the state and no failure is pending, no region is repainted.  In
/// particular, deciding twice with no intervening state change issues zero
/// draws the second time.
pub proof fn lemma_no_change_no_draw(snap: Snapshot, s: GreeterState)
    requires
        snapshot_matches(snap, s),
        !s.failure,
    ensures
        plan_spec(snap, s).none_spec(),
{
}

} // verus!
