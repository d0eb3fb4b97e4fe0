//! Line editor state machine: turns a raw byte stream into a single-line
//! editing session with three built-in commands.
//!
//! The whole editor state is the current line buffer. Each input byte drives
//! one transition and yields an action for the surrounding session loop to
//! perform: exit, move the cursor, query the cursor position, reprint the
//! prompt, or repaint the buffer at the anchor position.

use vstd::prelude::*;

verus! {

/// Control byte that ends the session.
pub const END_OF_TEXT: u8 = 3;

/// Control byte that repositions the cursor to the anchor.
pub const START_OF_HEADING: u8 = 1;

/// Control byte that submits the current buffer as a command.
pub const CARRIAGE_RETURN: u8 = 13;

/// Control byte that removes the last character of the buffer.
pub const DELETE: u8 = 127;

/// Row and column of the fixed position targeted by the jump command.
pub const JUMP_TARGET: u16 = 10;

/// What the session loop must do after one editor transition.
#[derive(Clone, Copy, PartialEq, Eq, Structural, Debug)]
pub enum EditorAction {
    /// Terminate the session loop.
    Exit,
    /// Reposition the cursor to the anchor position; the buffer is unchanged.
    MoveToAnchor,
    /// Move the cursor to the given fixed position, then reprint the prompt.
    Jump { row: u16, col: u16 },
    /// Query the cursor position and print it, then reprint the prompt.
    QueryPosition,
    /// Reprint the prompt for a fresh line.
    Prompt,
    /// Repaint the buffer at the anchor position.
    Repaint,
}

/// The literal command that terminates the session.
pub open spec fn quit_word() -> Seq<u8> {
    seq![113u8, 117u8, 105u8, 116u8]
}

/// The literal command that moves the cursor to the fixed jump target.
pub open spec fn jump_word() -> Seq<u8> {
    seq![106u8, 117u8, 109u8, 112u8]
}

/// The literal command that queries and prints the cursor position.
pub open spec fn where_word() -> Seq<u8> {
    seq![119u8, 104u8, 101u8, 114u8, 101u8]
}

/// The action produced by feeding `byte` to an editor whose buffer holds
/// `buf`.
pub open spec fn step_action(buf: Seq<u8>, byte: u8) -> EditorAction {
    if byte == END_OF_TEXT {
        EditorAction::Exit
    } else if byte == START_OF_HEADING {
        EditorAction::MoveToAnchor
    } else if byte == CARRIAGE_RETURN {
        if buf == quit_word() {
            EditorAction::Exit
        } else if buf == jump_word() {
            EditorAction::Jump { row: JUMP_TARGET, col: JUMP_TARGET }
        } else if buf == where_word() {
            EditorAction::QueryPosition
        } else {
            EditorAction::Prompt
        }
    } else {
        EditorAction::Repaint
    }
}

/// The buffer left behind by feeding `byte` to an editor whose buffer holds
/// `buf`: control bytes leave it alone or clear it, delete removes the last
/// character if one is present, and any other byte is appended.
pub open spec fn step_buffer(buf: Seq<u8>, byte: u8) -> Seq<u8> {
    if byte == END_OF_TEXT || byte == START_OF_HEADING {
        buf
    } else if byte == CARRIAGE_RETURN {
        if buf == quit_word() {
            buf
        } else {
            Seq::empty()
        }
    } else if byte == DELETE {
        if buf.len() > 0 {
            buf.drop_last()
        } else {
            buf
        }
    } else {
        buf.push(byte)
    }
}

/// Deleting on an empty buffer is a no-op: the buffer stays empty.
pub proof fn lemma_delete_on_empty_is_noop(byte: u8)
    requires
        byte == DELETE,
    ensures
        step_buffer(Seq::empty(), byte) == Seq::<u8>::empty(),
{
}

/// Deleting right after appending an ordinary byte restores the buffer.
pub proof fn lemma_delete_undoes_append(buf: Seq<u8>, byte: u8)
    requires
        byte != END_OF_TEXT,
        byte != START_OF_HEADING,
        byte != CARRIAGE_RETURN,
        byte != DELETE,
    ensures
        step_buffer(step_buffer(buf, byte), DELETE) == buf,
{
    assert(buf.push(byte).drop_last() =~= buf);
}

/// The user's current unsubmitted input: an ordered sequence of characters,
/// created empty and mutated by append and delete.
pub struct LineBuffer {
    chars: Vec<u8>,
}

impl View for LineBuffer {
    type V = Seq<u8>;

    closed spec fn view(&self) -> Seq<u8> {
        self.chars@
    }
}

/// Whether `v` holds exactly the bytes of the quit command.
fn is_quit(v: &Vec<u8>) -> (r: bool)
    ensures
        r == (v@ == quit_word()),
{
    let r = v.len() == 4 && v[0] == 113 && v[1] == 117 && v[2] == 105 && v[3] == 116;
    proof {
        if r {
            assert(v@ =~= quit_word());
        }
    }
    r
}

/// Whether `v` holds exactly the bytes of the jump command.
fn is_jump(v: &Vec<u8>) -> (r: bool)
    ensures
        r == (v@ == jump_word()),
{
    let r = v.len() == 4 && v[0] == 106 && v[1] == 117 && v[2] == 109 && v[3] == 112;
    proof {
        if r {
            assert(v@ =~= jump_word());
        }
    }
    r
}

/// Whether `v` holds exactly the bytes of the where command.
fn is_where(v: &Vec<u8>) -> (r: bool)
    ensures
        r == (v@ == where_word()),
{
    let r = v.len() == 5 && v[0] == 119 && v[1] == 104 && v[2] == 101 && v[3] == 114 && v[4]
        == 101;
    proof {
        if r {
            assert(v@ =~= where_word());
        }
    }
    r
}

impl LineBuffer {
    /// A fresh, empty line buffer.
    pub fn new() -> (b: LineBuffer)
        ensures
            b@ == Seq::<u8>::empty(),
    {
        LineBuffer { chars: Vec::new() }
    }

    /// The bytes currently held, for repainting the line in place.
    pub fn as_bytes(&self) -> (v: &Vec<u8>)
        ensures
            v@ == self@,
    {
        &self.chars
    }

    /// Feeds one input byte to the editor: mutates the buffer and reports
    /// the action the session loop must perform.
    pub fn step(&mut self, byte: u8) -> (action: EditorAction)
        ensures
            final(self)@ == step_buffer(old(self)@, byte),
            action == step_action(old(self)@, byte),
    {
        if byte == END_OF_TEXT {
            EditorAction::Exit
        } else if byte == START_OF_HEADING {
            EditorAction::MoveToAnchor
        } else if byte == CARRIAGE_RETURN {
            if is_quit(&self.chars) {
                EditorAction::Exit
            } else if is_jump(&self.chars) {
                self.chars = Vec::new();
                EditorAction::Jump { row: JUMP_TARGET, col: JUMP_TARGET }
            } else if is_where(&self.chars) {
                self.chars = Vec::new();
                EditorAction::QueryPosition
            } else {
                self.chars = Vec::new();
                EditorAction::Prompt
            }
        } else if byte == DELETE {
            if self.chars.len() > 0 {
                self.chars.pop();
                proof {
                    assert(self@ =~= step_buffer(old(self)@, byte));
                }
            }
            EditorAction::Repaint
        } else {
            self.chars.push(byte);
            EditorAction::Repaint
        }
    }
}

} // verus!
