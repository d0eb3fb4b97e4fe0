//! Terminal mode controller: transitions the controlling terminal between
//! canonical and raw modes, with the original mode always recoverable.
//!
//! The attribute record is modelled as plain values: the four flag words and
//! the two control characters that the raw-mode transform touches. The caller
//! that talks to the terminal driver reads the real attribute record, hands
//! its modelled fields in, and applies whatever this controller returns.

use vstd::prelude::*;

verus! {

/// Error kind for a failed terminal-attribute system call.
#[derive(Clone, Copy, PartialEq, Eq, Structural, Debug)]
pub enum TermError {
    IoError,
}

/// Interprets the return convention of the terminal-attribute system calls:
/// a return value of -1 reports failure, anything else success.
pub fn unwrap(t: i32) -> (r: Result<(), TermError>)
    ensures
        t == -1 ==> r == Err::<(), TermError>(TermError::IoError),
        t != -1 ==> r == Ok::<(), TermError>(()),
{
    if t == -1 {
        Err(TermError::IoError)
    } else {
        Ok(())
    }
}

/// Input flags cleared on entry to raw mode: break handling, parity marking,
/// bit stripping, newline translation, and flow control.
pub const RAW_INPUT_CLEAR: u32 = 0x1 | 0x2 | 0x8 | 0x20 | 0x40 | 0x80 | 0x100 | 0x400;

/// Output flag cleared on entry to raw mode: implementation-defined output
/// post-processing.
pub const RAW_OUTPUT_CLEAR: u32 = 0x1;

/// Local flags cleared on entry to raw mode: echo, canonical line editing,
/// signal-generating control characters, and extended input processing.
pub const RAW_LOCAL_CLEAR: u32 = 0x8 | 0x40 | 0x2 | 0x1 | 0x8000;

/// Control flags cleared on entry to raw mode: the character-size mask and
/// parity generation.
pub const RAW_CONTROL_CLEAR: u32 = 0x30 | 0x100;

/// Control flag set on entry to raw mode: eight-bit characters.
pub const RAW_CONTROL_SET: u32 = 0x30;

/// Plain-value model of a terminal attribute record: the flag words and the
/// two control characters (minimum read count and read timeout) that the
/// raw-mode transform touches.
#[derive(Clone, Copy, PartialEq, Eq, Structural, Debug)]
pub struct TerminalAttributes {
    pub input_flags: u32,
    pub output_flags: u32,
    pub control_flags: u32,
    pub local_flags: u32,
    pub min_read_bytes: u8,
    pub read_timeout: u8,
}

/// The conventional raw-mode transform: disable canonical input processing,
/// echo and signal-generating control characters, and deliver input
/// byte-at-a-time and unbuffered.
pub open spec fn make_raw(a: TerminalAttributes) -> TerminalAttributes {
    TerminalAttributes {
        input_flags: a.input_flags & !RAW_INPUT_CLEAR,
        output_flags: a.output_flags & !RAW_OUTPUT_CLEAR,
        control_flags: (a.control_flags & !RAW_CONTROL_CLEAR) | RAW_CONTROL_SET,
        local_flags: a.local_flags & !RAW_LOCAL_CLEAR,
        min_read_bytes: 1,
        read_timeout: 0,
    }
}

/// The raw-mode transform is idempotent: applying it twice yields the same
/// record as applying it once.
pub proof fn lemma_make_raw_idempotent(a: TerminalAttributes)
    ensures
        make_raw(make_raw(a)) == make_raw(a),
{
    let i = a.input_flags;
    let o = a.output_flags;
    let c = a.control_flags;
    let l = a.local_flags;
    assert((i & !RAW_INPUT_CLEAR) & !RAW_INPUT_CLEAR == i & !RAW_INPUT_CLEAR) by (bit_vector);
    assert((o & !RAW_OUTPUT_CLEAR) & !RAW_OUTPUT_CLEAR == o & !RAW_OUTPUT_CLEAR) by (bit_vector);
    assert((((c & !RAW_CONTROL_CLEAR) | RAW_CONTROL_SET) & !RAW_CONTROL_CLEAR) | RAW_CONTROL_SET
        == (c & !RAW_CONTROL_CLEAR) | RAW_CONTROL_SET) by (bit_vector);
    assert((l & !RAW_LOCAL_CLEAR) & !RAW_LOCAL_CLEAR == l & !RAW_LOCAL_CLEAR) by (bit_vector);
}

/// The snapshot stored after entering raw mode with `current` as the
/// attribute record read from the terminal: the first observed record is
/// kept, later entries never overwrite it.
pub open spec fn snapshot_after_enable(
    stored: Option<TerminalAttributes>,
    current: TerminalAttributes,
) -> Option<TerminalAttributes> {
    if stored is Some {
        stored
    } else {
        Some(current)
    }
}

/// Once a snapshot is stored, entering raw mode again leaves it unchanged:
/// the restorable original is always the first observed attribute record.
pub proof fn lemma_snapshot_set_once(
    stored: Option<TerminalAttributes>,
    first: TerminalAttributes,
    second: TerminalAttributes,
)
    ensures
        snapshot_after_enable(snapshot_after_enable(stored, first), second)
            == snapshot_after_enable(stored, first),
{
}

/// Raw-mode session state: whether raw mode is currently enabled, and the
/// attribute record observed before the first entry into raw mode.
pub struct Terminal {
    raw_mode_enabled: bool,
    original_terminal_mode: Option<TerminalAttributes>,
}

impl Terminal {
    /// Rewrites the given attribute record into its raw-mode form, in place.
    /// This is a pure structural transform with no error path.
    pub fn raw_terminal_attr(attrs: &mut TerminalAttributes)
        ensures
            *final(attrs) == make_raw(*old(attrs)),
    {
        attrs.input_flags = attrs.input_flags & !RAW_INPUT_CLEAR;
        attrs.output_flags = attrs.output_flags & !RAW_OUTPUT_CLEAR;
        attrs.control_flags = (attrs.control_flags & !RAW_CONTROL_CLEAR) | RAW_CONTROL_SET;
        attrs.local_flags = attrs.local_flags & !RAW_LOCAL_CLEAR;
        attrs.min_read_bytes = 1;
        attrs.read_timeout = 0;
    }

    /// Whether raw mode is currently marked enabled.
    pub closed spec fn raw_mode_enabled(&self) -> bool {
        self.raw_mode_enabled
    }

    /// The stored snapshot of the original attribute record, if any.
    pub closed spec fn original_mode(&self) -> Option<TerminalAttributes> {
        self.original_terminal_mode
    }

    /// A fresh session: raw mode off, no snapshot stored.
    pub fn new() -> (t: Terminal)
        ensures
            !t.raw_mode_enabled(),
            t.original_mode() is None,
    {
        Terminal { raw_mode_enabled: false, original_terminal_mode: None }
    }

    /// Reports whether raw mode is currently marked enabled.
    pub fn is_raw_mode_enabled(&self) -> (r: bool)
        ensures
            r == self.raw_mode_enabled(),
    {
        self.raw_mode_enabled
    }

    /// Returns the stored snapshot of the original attribute record, if any.
    pub fn stored_original_mode(&self) -> (r: Option<TerminalAttributes>)
        ensures
            r == self.original_mode(),
    {
        self.original_terminal_mode
    }

    /// Enters raw mode, given the attribute record just read from the
    /// terminal. Stores that record as the restorable original unless a
    /// snapshot already exists, marks raw mode enabled, and returns the
    /// raw-transformed record for the caller to apply to the terminal.
    pub fn enable_raw_mode(&mut self, current: TerminalAttributes) -> (r: TerminalAttributes)
        ensures
            final(self).original_mode() == snapshot_after_enable(old(self).original_mode(), current),
            final(self).raw_mode_enabled(),
            r == make_raw(current),
    {
        if self.original_terminal_mode.is_none() {
            self.original_terminal_mode = Some(current);
        }
        self.raw_mode_enabled = true;
        let mut ios = current;
        Terminal::raw_terminal_attr(&mut ios);
        ios
    }

    /// Leaves raw mode. With no snapshot stored this is a no-op that changes
    /// nothing and reports nothing to restore; otherwise it marks raw mode
    /// disabled, keeps the snapshot, and returns the original attribute
    /// record for the caller to apply to the terminal.
    pub fn disable_raw_mode(&mut self) -> (r: Option<TerminalAttributes>)
        ensures
            old(self).original_mode() is None ==> r is None && *final(self) == *old(self),
            old(self).original_mode() matches Some(m) ==> {
                &&& r == Some(m)
                &&& !final(self).raw_mode_enabled()
                &&& final(self).original_mode() == old(self).original_mode()
            },
    {
        match self.original_terminal_mode {
            Some(mode) => {
                self.raw_mode_enabled = false;
                Some(mode)
            },
            None => None,
        }
    }
}

} // verus!
