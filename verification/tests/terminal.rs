use termline::terminal::{unwrap, TermError, Terminal, TerminalAttributes};

fn attrs(iflag: u32, oflag: u32, cflag: u32, lflag: u32, vmin: u8, vtime: u8) -> TerminalAttributes {
    TerminalAttributes {
        input_flags: iflag,
        output_flags: oflag,
        control_flags: cflag,
        local_flags: lflag,
        min_read_bytes: vmin,
        read_timeout: vtime,
    }
}

fn raw_of(a: TerminalAttributes) -> TerminalAttributes {
    let mut r = a;
    Terminal::raw_terminal_attr(&mut r);
    r
}

#[test]
fn make_raw_exact_fields() {
    let a = attrs(0xFFFF, 0x3, 0x1FF, 0xFFFF, 7, 9);
    let r = raw_of(a);
    assert_eq!(r.input_flags, 0xFA14);
    assert_eq!(r.output_flags, 0x2);
    assert_eq!(r.control_flags, 0xFF);
    assert_eq!(r.local_flags, 0x7FB4);
    assert_eq!(r.min_read_bytes, 1);
    assert_eq!(r.read_timeout, 0);
}

#[test]
fn make_raw_idempotent() {
    let records = [
        attrs(0, 0, 0, 0, 0, 0),
        attrs(0xFFFF_FFFF, 0xFFFF_FFFF, 0xFFFF_FFFF, 0xFFFF_FFFF, 255, 255),
        attrs(0x5EB, 0x1, 0x130, 0x804B, 1, 0),
        attrs(0x1234_5678, 0x9ABC_DEF0, 0x0F0F_0F0F, 0xF0F0_F0F0, 42, 17),
    ];
    for a in records {
        let once = raw_of(a);
        let twice = raw_of(once);
        assert_eq!(twice, once);
    }
}

#[test]
fn enable_twice_keeps_first_snapshot() {
    let first = attrs(0x5EB, 0x1, 0x130, 0x804B, 1, 0);
    let second = attrs(0xAAAA, 0xBBBB, 0xCCCC, 0xDDDD, 3, 4);
    let mut term = Terminal::new();
    term.enable_raw_mode(first);
    term.enable_raw_mode(second);
    assert_eq!(term.stored_original_mode(), Some(first));
    assert!(term.is_raw_mode_enabled());
}

#[test]
fn enable_returns_raw_transform() {
    let a = attrs(0xFFFF, 0x3, 0x1FF, 0xFFFF, 7, 9);
    let mut term = Terminal::new();
    let applied = term.enable_raw_mode(a);
    assert_eq!(applied, raw_of(a));
}

#[test]
fn disable_without_enable_is_noop() {
    let mut term = Terminal::new();
    assert_eq!(term.disable_raw_mode(), None);
    assert!(!term.is_raw_mode_enabled());
    assert_eq!(term.stored_original_mode(), None);
}

#[test]
fn disable_restores_first_observed_record() {
    let first = attrs(0x5EB, 0x1, 0x130, 0x804B, 1, 0);
    let second = attrs(0xAAAA, 0xBBBB, 0xCCCC, 0xDDDD, 3, 4);
    let mut term = Terminal::new();
    term.enable_raw_mode(first);
    term.enable_raw_mode(second);
    let restored = term.disable_raw_mode();
    assert_eq!(restored, Some(first));
    assert!(!term.is_raw_mode_enabled());
    assert_eq!(term.disable_raw_mode(), Some(first));
}

#[test]
fn unwrap_reports_failure_convention() {
    assert_eq!(unwrap(-1), Err(TermError::IoError));
    assert_eq!(unwrap(0), Ok(()));
    assert_eq!(unwrap(1), Ok(()));
}
