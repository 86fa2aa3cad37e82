//! Core logic of a minimal framebuffer login greeter.
//!
//! The library covers the parts of the greeter that do real algorithmic and
//! state-management work, each with a verified contract:
//!
//! - [`input`]: the raw keystroke decoder, turning a byte stream into discrete
//!   key events with escape/control-sequence lookahead;
//! - [`field`]: editable text fields whose byte-offset cursor always stays on
//!   a Unicode scalar-value boundary;
//! - [`greeter`]: the interactive state machine over the three editing modes,
//!   including the submit/cancel protocol with the authentication service;
//! - [`redraw`]: minimal-redraw bookkeeping, deciding which screen regions
//!   must be repainted after each event.
//!
//! Everything that touches a device — the framebuffer, the console mode, the
//! blocking byte source, the authentication socket — lives outside this
//! library and hands it plain values.

pub mod field;
pub mod greeter;
pub mod input;
pub mod redraw;
