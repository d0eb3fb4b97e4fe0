use termline::cursor::{
    goto_sequence, parse_position_reply, query_sequence, CursorPosition, ParseError,
};

fn parse(bytes: &[u8]) -> Result<CursorPosition, ParseError> {
    let v: Vec<u8> = bytes.to_vec();
    parse_position_reply(&v)
}

fn pos(row: u16, col: u16) -> CursorPosition {
    CursorPosition { row, col }
}

#[test]
fn parses_row_and_column() {
    assert_eq!(parse(&[27, 91, 50, 52, 59, 56, 48]), Ok(pos(24, 80)));
}

#[test]
fn parses_ones() {
    assert_eq!(parse(&[27, 91, 49, 59, 49]), Ok(pos(1, 1)));
}

#[test]
fn rejects_single_field() {
    assert_eq!(parse(&[27, 91, 50, 52]), Err(ParseError::MissingField));
}

#[test]
fn rejects_short_replies() {
    assert_eq!(parse(&[]), Err(ParseError::MissingField));
    assert_eq!(parse(&[27]), Err(ParseError::MissingField));
    assert_eq!(parse(&[27, 91]), Err(ParseError::MissingField));
}

#[test]
fn rejects_non_digit_bytes() {
    assert_eq!(parse(&[27, 91, 50, 65, 59, 56]), Err(ParseError::InvalidField));
    assert_eq!(parse(&[27, 91, 49, 59, 32, 50]), Err(ParseError::InvalidField));
}

#[test]
fn rejects_oversized_coordinate() {
    // 65536 does not fit a coordinate; 65535 does
    assert_eq!(parse(&[27, 91, 54, 53, 53, 51, 54, 59, 49]), Err(ParseError::InvalidField));
    assert_eq!(parse(&[27, 91, 54, 53, 53, 51, 53, 59, 49]), Ok(pos(65535, 1)));
}

#[test]
fn empty_fields_read_as_zero() {
    assert_eq!(parse(&[27, 91, 59]), Ok(pos(0, 0)));
    assert_eq!(parse(&[27, 91, 59, 55]), Ok(pos(0, 7)));
}

#[test]
fn extra_fields_are_ignored() {
    assert_eq!(parse(&[27, 91, 49, 59, 50, 59, 51]), Ok(pos(1, 2)));
}

#[test]
fn lead_in_bytes_are_skipped_unchecked() {
    assert_eq!(parse(&[0, 0, 49, 59, 50]), Ok(pos(1, 2)));
}

#[test]
fn query_sequence_exact_bytes() {
    assert_eq!(query_sequence(), vec![27, 91, 54, 110]);
}

#[test]
fn goto_sequence_exact_bytes() {
    assert_eq!(goto_sequence(10, 10), b"\x1b[10;10f".to_vec());
    assert_eq!(goto_sequence(1, 1), b"\x1b[1;1f".to_vec());
    assert_eq!(goto_sequence(24, 80), b"\x1b[24;80f".to_vec());
    assert_eq!(goto_sequence(65535, 0), b"\x1b[65535;0f".to_vec());
}

#[test]
fn goto_sequence_round_trips_through_parser() {
    // the body of a move request, reread as a reply, yields the same pair
    let written = goto_sequence(12, 34);
    let reply: Vec<u8> = written[..written.len() - 1].to_vec();
    assert_eq!(parse_position_reply(&reply), Ok(pos(12, 34)));
}
