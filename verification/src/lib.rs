//! A small verified core for an interactive raw-mode terminal session:
//! terminal attribute management with guaranteed recoverability of the
//! original mode, the cursor-position query/reply protocol, and a
//! single-line editor state machine.

use vstd::prelude::*;

pub mod cursor;
pub mod editor;
pub mod terminal;

verus! {

/// An input event produced by a line-oriented reader: either a submitted
/// line of text or a request to end the session.
#[derive(Debug)]
pub enum KeyEvent {
    Line(String),
    Exit,
}

} // verus!
