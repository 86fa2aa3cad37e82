//! Decoding a raw console byte stream into discrete key events.
//!
//! The console delivers keystrokes as single bytes, except for arrow keys and
//! other special keys, which arrive as escape sequences: `ESC` (`0x1B`),
//! optionally followed by `[` and one final byte.  [`InputStream`] is a
//! three-level lookahead state machine over those bytes, with no
//! backtracking.  It is deliberately byte-oriented rather than UTF-8-aware:
//! bytes at or above `0x80` come out as individual [`Key::Other`] events.

use vstd::prelude::*;

verus! {

/// One decoded key event, produced fresh per decode step.
#[derive(Debug, Copy, Clone, PartialEq, Eq, Structural)]
pub enum Key {
    /// Clear-line control key (`0x0B`).
    CtrlK,
    /// Clear-line control key (`0x15`).
    CtrlU,
    /// Interrupt (`0x03`): cancel the login attempt and exit.
    CtrlC,
    /// End of input (`0x04`): cancel the login attempt and exit.
    CtrlD,
    /// Delete the scalar value before the cursor (`0x7F`).
    Backspace,
    /// Delete the scalar value at the cursor; never produced by the decoder
    /// itself, kept for callers that feed key events from elsewhere.
    Delete,
    /// Focus the next prompt (`0x09`).
    Tab,
    /// Confirm the current prompt (`0x0D`).
    Return,
    /// Arrow up (`ESC [ A`).
    Up,
    /// Arrow down (`ESC [ B`).
    Down,
    /// Arrow left (`ESC [ D`).
    Left,
    /// Arrow right (`ESC [ C`).
    Right,
    /// Any other single byte, carried raw.
    Other(u8),
    /// An escape sequence `ESC b` with `b` not `[`, carrying `b`.
    OtherEsc(u8),
    /// A control sequence `ESC [ b` with `b` not an arrow letter, carrying `b`.
    OtherCsi(u8),
}

/// Where the decoder stands inside a (possible) escape sequence.
#[derive(Debug, Copy, Clone, PartialEq, Eq, Structural)]
pub enum DecodeState {
    /// Not inside an escape sequence.
    Ground,
    /// An `ESC` byte was seen; waiting for the second byte.
    Escape,
    /// `ESC [` was seen; waiting for the final byte.
    Csi,
}

/// The key denoted by a single byte outside any escape sequence.
pub open spec fn plain_key(b: u8) -> Key {
    if b == 0x03 {
        Key::CtrlC
    } else if b == 0x04 {
        Key::CtrlD
    } else if b == 0x0B {
        Key::CtrlK
    } else if b == 0x15 {
        Key::CtrlU
    } else if b == 0x7F {
        Key::Backspace
    } else if b == 0x09 {
        Key::Tab
    } else if b == 0x0D {
        Key::Return
    } else {
        Key::Other(b)
    }
}

/// The key denoted by the final byte of an `ESC [` control sequence.
pub open spec fn csi_key(b: u8) -> Key {
    if b == 0x41 {
        Key::Up
    } else if b == 0x42 {
        Key::Down
    } else if b == 0x43 {
        Key::Right
    } else if b == 0x44 {
        Key::Left
    } else {
        Key::OtherCsi(b)
    }
}

/// One step of the decoder: from a state and the next byte to the successor
/// state and the completed key event, if this byte completes one.
pub open spec fn decode_step(s: DecodeState, b: u8) -> (DecodeState, Option<Key>) {
    match s {
        DecodeState::Ground => if b == 0x1B {
            (DecodeState::Escape, None::<Key>)
        } else {
            (DecodeState::Ground, Some(plain_key(b)))
        },
        DecodeState::Escape => if b == 0x5B {
            (DecodeState::Csi, None::<Key>)
        } else {
            (DecodeState::Ground, Some(Key::OtherEsc(b)))
        },
        DecodeState::Csi => (DecodeState::Ground, Some(csi_key(b))),
    }
}

/// Every byte other than the escape introducer `0x1B`, fed in the ground
/// state, decodes to exactly one key that is a pure function of that byte,
/// and leaves the decoder in the ground state.
pub proof fn lemma_plain_byte_decodes(b: u8)
    requires
        b != 0x1B,
    ensures
        decode_step(DecodeState::Ground, b) == (DecodeState::Ground, Some(plain_key(b))),
{
}

/// The keystroke decoder.  Callers feed it the console bytes one at a time,
/// in arrival order, and get back one [`Key`] per completed sequence.
pub struct InputStream {
    state: DecodeState,
}

impl InputStream {
    /// The decoder's position inside a (possible) escape sequence.
    pub closed spec fn state(self) -> DecodeState {
        self.state
    }

    /// A fresh decoder, outside any escape sequence.
    pub fn new() -> (s: InputStream)
        ensures
            s.state() == DecodeState::Ground,
    {
        InputStream { state: DecodeState::Ground }
    }

    /// Feed the next byte of the console stream.  Returns the completed key
    /// event, or `None` when the byte begins or continues an escape sequence.
    pub fn next(&mut self, byte: u8) -> (key: Option<Key>)
        ensures
            final(self).state() == decode_step(old(self).state(), byte).0,
            key == decode_step(old(self).state(), byte).1,
    {
        match self.state {
            DecodeState::Ground => {
                if byte == 0x1B {
                    self.state = DecodeState::Escape;
                    None
                } else {
                    Some(decode_plain(byte))
                }
            },
            DecodeState::Escape => {
                if byte == 0x5B {
                    self.state = DecodeState::Csi;
                    None
                } else {
                    self.state = DecodeState::Ground;
                    Some(Key::OtherEsc(byte))
                }
            },
            DecodeState::Csi => {
                self.state = DecodeState::Ground;
                Some(decode_csi(byte))
            },
        }
    }
}

/// Executable form of [`plain_key`].
fn decode_plain(b: u8) -> (k: Key)
    ensures
        k == plain_key(b),
{
    match b {
        0x03 => Key::CtrlC,
        0x04 => Key::CtrlD,
        0x0B => Key::CtrlK,
        0x15 => Key::CtrlU,
        0x7F => Key::Backspace,
        0x09 => Key::Tab,
        0x0D => Key::Return,
        _ => Key::Other(b),
    }
}

/// Executable form of [`csi_key`].
fn decode_csi(b: u8) -> (k: Key)
    ensures
        k == csi_key(b),
{
    match b {
        0x41 => Key::Up,
        0x42 => Key::Down,
        0x43 => Key::Right,
        0x44 => Key::Left,
        _ => Key::OtherCsi(b),
    }
}

} // verus!
