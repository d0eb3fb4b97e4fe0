//! Cursor protocol client: the request/reply subset of the terminal control
//! protocol needed to learn and set the cursor's screen coordinates.
//!
//! The reply to a position query has the wire form `ESC [ row ; col R`. The
//! parser here works on the bytes received before the terminating `R`: it
//! skips the two lead-in bytes, splits on the `;` separator, and reads each
//! of the first two groups as a decimal integer, rejecting a reply with
//! fewer than two groups, a non-digit byte, or a value that does not fit.

use vstd::prelude::*;

verus! {

/// Escape byte that opens every control sequence.
pub const ESCAPE_BYTE: u8 = 27;

/// The `[` byte that follows the escape byte in a control sequence.
pub const BRACKET_BYTE: u8 = 91;

/// The `;` separator between the row and column fields.
pub const SEPARATOR_BYTE: u8 = 59;

/// The `R` byte that terminates a cursor position reply.
pub const REPLY_TERMINATOR: u8 = 82;

/// The `f` byte that terminates a cursor move request.
pub const MOVE_TERMINATOR: u8 = 102;

/// A cursor position on the screen: an ordered pair of row and column,
/// 1-indexed by terminal convention.
#[derive(Clone, Copy, PartialEq, Eq, Structural, Debug)]
pub struct CursorPosition {
    pub row: u16,
    pub col: u16,
}

/// Why a cursor position reply was rejected.
#[derive(Clone, Copy, PartialEq, Eq, Structural, Debug)]
pub enum ParseError {
    /// The reply holds fewer than two fields.
    MissingField,
    /// A field holds a non-digit byte or a value too large for a coordinate.
    InvalidField,
}

/// Whether `b` is the code of a decimal digit.
pub open spec fn is_digit(b: u8) -> bool {
    48 <= b <= 57
}

/// Whether every byte of `s` is a decimal digit.
pub open spec fn all_digits(s: Seq<u8>) -> bool {
    forall|i: int| 0 <= i < s.len() ==> is_digit(#[trigger] s[i])
}

/// The value of `s` read as a decimal numeral, accumulated left to right.
/// An empty group reads as zero.
pub open spec fn dec_value(s: Seq<u8>) -> int
    decreases s.len(),
{
    if s.len() == 0 {
        0
    } else {
        dec_value(s.drop_last()) * 10 + (s.last() - 48)
    }
}

/// `i` is the position of the first separator byte in `s`.
pub open spec fn semi_at(s: Seq<u8>, i: int) -> bool {
    &&& 0 <= i < s.len()
    &&& s[i] == SEPARATOR_BYTE
    &&& forall|k: int| 0 <= k < i ==> #[trigger] s[k] != SEPARATOR_BYTE
}

/// Whether `s` holds a separator byte at all.
pub open spec fn has_semi(s: Seq<u8>) -> bool {
    exists|i: int| semi_at(s, i)
}

/// The two fields of a reply body: everything after the two lead-in bytes,
/// split at the first separator, with the second field running to the next
/// separator or to the end. `None` when the reply is too short to hold the
/// lead-in or has no separator, so that fewer than two fields are present.
pub open spec fn reply_fields(s: Seq<u8>) -> Option<(Seq<u8>, Seq<u8>)> {
    if s.len() < 2 {
        None
    } else {
        let body = s.skip(2);
        if has_semi(body) {
            let i = choose|i: int| semi_at(body, i);
            let rest = body.skip(i + 1);
            let second = if has_semi(rest) {
                rest.take(choose|i: int| semi_at(rest, i))
            } else {
                rest
            };
            Some((body.take(i), second))
        } else {
            None
        }
    }
}

/// Whether a field group reads as a valid coordinate: all digits, with a
/// value that fits the coordinate type.
pub open spec fn field_ok(g: Seq<u8>) -> bool {
    all_digits(g) && dec_value(g) <= 0xFFFF
}

/// The position of the first separator is unique.
proof fn lemma_semi_at_unique(s: Seq<u8>, i: int, j: int)
    requires
        semi_at(s, i),
        semi_at(s, j),
    ensures
        i == j,
{
    if i < j {
        assert(s[i] != SEPARATOR_BYTE);
    } else if j < i {
        assert(s[j] != SEPARATOR_BYTE);
    }
}

/// Dropping the last byte of an all-digit group leaves an all-digit group.
proof fn lemma_all_digits_drop_last(s: Seq<u8>)
    requires
        all_digits(s),
        s.len() > 0,
    ensures
        all_digits(s.drop_last()),
{
    assert forall|i: int| 0 <= i < s.drop_last().len() implies is_digit(#[trigger] s.drop_last()[i]) by {
        assert(s.drop_last()[i] == s[i]);
    }
}

/// The decimal value of an all-digit group is never negative.
proof fn lemma_dec_value_nonneg(s: Seq<u8>)
    requires
        all_digits(s),
    ensures
        dec_value(s) >= 0,
    decreases s.len(),
{
    if s.len() > 0 {
        lemma_all_digits_drop_last(s);
        lemma_dec_value_nonneg(s.drop_last());
        assert(is_digit(s[s.len() - 1]));
    }
}

/// A prefix of an all-digit group never reads as a larger value than the
/// whole group.
proof fn lemma_dec_value_take_le(s: Seq<u8>, m: int)
    requires
        all_digits(s),
        0 <= m <= s.len(),
    ensures
        dec_value(s.take(m)) <= dec_value(s),
    decreases s.len(),
{
    if m == s.len() {
        assert(s.take(m) =~= s);
    } else {
        let d = s.drop_last();
        lemma_all_digits_drop_last(s);
        assert(s.take(m) =~= d.take(m));
        lemma_dec_value_take_le(d, m);
        lemma_dec_value_nonneg(d);
        assert(is_digit(s[s.len() - 1]));
    }
}

/// Reads the bytes `start..end` of `bytes` as one decimal coordinate field.
fn parse_field(bytes: &Vec<u8>, start: usize, end: usize) -> (r: Result<u16, ParseError>)
    requires
        start <= end <= bytes@.len(),
    ensures
        ({
            let g = bytes@.subrange(start as int, end as int);
            if field_ok(g) {
                r == Ok::<u16, ParseError>((dec_value(g) as u16))
            } else {
                r == Err::<u16, ParseError>(ParseError::InvalidField)
            }
        }),
{
    let ghost g = bytes@.subrange(start as int, end as int);
    let mut acc: u32 = 0;
    let mut k: usize = start;
    while k < end
        invariant
            start <= k <= end <= bytes@.len(),
            g == bytes@.subrange(start as int, end as int),
            all_digits(bytes@.subrange(start as int, k as int)),
            acc == dec_value(bytes@.subrange(start as int, k as int)),
            acc <= 0xFFFF,
        decreases end - k,
    {
        let b = bytes[k];
        if b < 48 || b > 57 {
            proof {
                assert(g[k - start] == b);
                assert(!all_digits(g));
            }
            return Err(ParseError::InvalidField);
        }
        let d: u32 = (b - 48) as u32;
        let next: u32 = acc * 10 + d;
        proof {
            let p = bytes@.subrange(start as int, k as int);
            let p2 = bytes@.subrange(start as int, k + 1int);
            assert(p2 =~= p.push(b));
            assert(p2.drop_last() =~= p);
            assert(dec_value(p2) == dec_value(p) * 10 + (b - 48));
            assert forall|i: int| 0 <= i < p2.len() implies is_digit(#[trigger] p2[i]) by {
                if i < p.len() {
                    assert(p2[i] == p[i]);
                }
            }
        }
        if next > 0xFFFF {
            proof {
                if all_digits(g) {
                    lemma_dec_value_take_le(g, k + 1 - start);
                    assert(g.take(k + 1 - start) =~= bytes@.subrange(start as int, k + 1int));
                    assert(dec_value(g) > 0xFFFF);
                }
            }
            return Err(ParseError::InvalidField);
        }
        acc = next;
        k = k + 1;
    }
    proof {
        assert(bytes@.subrange(start as int, k as int) =~= g);
    }
    Ok(acc as u16)
}

/// Parses a cursor position reply: the bytes received after the request,
/// up to but not including the terminating `R` byte. The reply must hold
/// two lead-in bytes and two decimal fields split by a separator; a reply
/// with fewer than two fields is rejected as missing a field, and a field
/// with a non-digit byte or an over-large value is rejected as invalid.
pub fn parse_position_reply(reply: &Vec<u8>) -> (r: Result<CursorPosition, ParseError>)
    ensures
        reply_fields(reply@) is None ==> r == Err::<CursorPosition, ParseError>(
            ParseError::MissingField,
        ),
        reply_fields(reply@) matches Some(fields) ==> {
            if field_ok(fields.0) && field_ok(fields.1) {
                r == Ok::<CursorPosition, ParseError>(
                    (CursorPosition {
                        row: dec_value(fields.0) as u16,
                        col: dec_value(fields.1) as u16,
                    }),
                )
            } else {
                r == Err::<CursorPosition, ParseError>(ParseError::InvalidField)
            }
        },
{
    if reply.len() < 2 {
        return Err(ParseError::MissingField);
    }
    let ghost body = reply@.skip(2);
    let mut i: usize = 2;
    while i < reply.len() && reply[i] != SEPARATOR_BYTE
        invariant
            2 <= i <= reply@.len(),
            body == reply@.skip(2),
            forall|k: int| 2 <= k < i ==> #[trigger] reply@[k] != SEPARATOR_BYTE,
        decreases reply@.len() - i,
    {
        i = i + 1;
    }
    if i == reply.len() {
        proof {
            assert forall|j: int| 0 <= j < body.len() implies #[trigger] body[j] != SEPARATOR_BYTE by {
                assert(body[j] == reply@[j + 2]);
            }
            assert(!has_semi(body));
        }
        return Err(ParseError::MissingField);
    }
    proof {
        assert(body[i - 2] == reply@[i as int]);
        assert forall|k: int| 0 <= k < i - 2 implies #[trigger] body[k] != SEPARATOR_BYTE by {
            assert(body[k] == reply@[k + 2]);
        }
        assert(semi_at(body, i - 2));
        let w = choose|i: int| semi_at(body, i);
        lemma_semi_at_unique(body, w, i - 2);
    }
    let ghost rest = body.skip(i - 2 + 1);
    let mut j: usize = i + 1;
    while j < reply.len() && reply[j] != SEPARATOR_BYTE
        invariant
            i + 1 <= j <= reply@.len(),
            rest == reply@.skip(2).skip(i - 2 + 1),
            i + 1 <= reply@.len(),
            forall|k: int| i + 1 <= k < j ==> #[trigger] reply@[k] != SEPARATOR_BYTE,
        decreases reply@.len() - j,
    {
        j = j + 1;
    }
    proof {
        assert(rest =~= reply@.skip(i + 1));
        if j == reply@.len() {
            assert forall|q: int| 0 <= q < rest.len() implies #[trigger] rest[q] != SEPARATOR_BYTE by {
                assert(rest[q] == reply@[q + i + 1]);
            }
            assert(!has_semi(rest));
            assert(rest =~= reply@.subrange(i + 1, j as int));
        } else {
            assert(rest[j - i - 1] == reply@[j as int]);
            assert forall|q: int| 0 <= q < j - i - 1 implies #[trigger] rest[q] != SEPARATOR_BYTE by {
                assert(rest[q] == reply@[q + i + 1]);
            }
            assert(semi_at(rest, j - i - 1));
            let w2 = choose|i: int| semi_at(rest, i);
            lemma_semi_at_unique(rest, w2, j - i - 1);
            assert(rest.take(j - i - 1) =~= reply@.subrange(i + 1, j as int));
        }
        assert(body.take(i - 2) =~= reply@.subrange(2, i as int));
    }
    let first = parse_field(reply, 2, i);
    let second = parse_field(reply, i + 1, j);
    let row = match first {
        Ok(v) => v,
        Err(_) => {
            return Err(ParseError::InvalidField);
        },
    };
    let col = match second {
        Ok(v) => v,
        Err(_) => {
            return Err(ParseError::InvalidField);
        },
    };
    Ok(CursorPosition { row, col })
}

/// The decimal numeral of `n`, most significant digit first.
pub open spec fn dec_digits(n: nat) -> Seq<u8>
    decreases n,
{
    if n < 10 {
        seq![(48 + n) as u8]
    } else {
        dec_digits(n / 10).push((48 + n % 10) as u8)
    }
}

/// The two sides of the protocol agree on the digit encoding: the decimal
/// numeral written into a move request is all digits, and reads back as the
/// value it was built from under the reply parser's decimal reader.
pub proof fn lemma_dec_digits_read_back(n: nat)
    ensures
        all_digits(dec_digits(n)),
        dec_value(dec_digits(n)) == n,
    decreases n,
{
    if n < 10 {
        reveal_with_fuel(dec_value, 2);
        let s = seq![(48 + n) as u8];
        assert(s.drop_last() =~= Seq::<u8>::empty());
    } else {
        assert(n / 10 < n) by (nonlinear_arith)
            requires 10 <= n,
        ;
        lemma_dec_digits_read_back(n / 10);
        let p = dec_digits(n / 10);
        let d = (48 + n % 10) as u8;
        let s = p.push(d);
        assert(n % 10 < 10) by (nonlinear_arith);
        assert(s.drop_last() =~= p);
        assert(n / 10 * 10 + n % 10 == n) by (nonlinear_arith)
            requires n >= 10,
        ;
        assert forall|i: int| 0 <= i < s.len() implies is_digit(#[trigger] s[i]) by {
            if i < p.len() {
                assert(s[i] == p[i]);
            }
        }
    }
}

/// Appends the decimal numeral of `n` to `out`.
fn push_decimal(n: u16, out: &mut Vec<u8>)
    ensures
        final(out)@ == old(out)@ + dec_digits(n as nat),
    decreases n,
{
    if n < 10 {
        out.push(48 + n as u8);
        proof {
            assert(out@ =~= old(out)@ + dec_digits(n as nat));
        }
    } else {
        proof {
            assert(n / 10 < n) by (nonlinear_arith)
                requires 10 <= n,
            ;
        }
        push_decimal(n / 10, out);
        out.push(48 + (n % 10) as u8);
        proof {
            assert(out@ =~= old(out)@ + dec_digits(n as nat));
        }
    }
}

/// The exact byte sequence of the cursor position request `ESC [ 6 n`.
pub open spec fn query_sequence_spec() -> Seq<u8> {
    seq![ESCAPE_BYTE, BRACKET_BYTE, 54u8, 110u8]
}

/// Builds the device status report request that asks the terminal for the
/// cursor position: `ESC [ 6 n`, to be written and flushed before reading
/// the reply.
pub fn query_sequence() -> (s: Vec<u8>)
    ensures
        s@ == query_sequence_spec(),
{
    let mut v: Vec<u8> = Vec::new();
    v.push(ESCAPE_BYTE);
    v.push(BRACKET_BYTE);
    v.push(54);
    v.push(110);
    proof {
        assert(v@ =~= query_sequence_spec());
    }
    v
}

/// The exact byte sequence of the cursor move request `ESC [ row ; col f`.
pub open spec fn goto_sequence_spec(row: u16, col: u16) -> Seq<u8> {
    seq![ESCAPE_BYTE, BRACKET_BYTE] + dec_digits(row as nat) + seq![SEPARATOR_BYTE] + dec_digits(col as nat) + seq![MOVE_TERMINATOR]
}

/// Builds the fire-and-forget cursor move request `ESC [ row ; col f`.
pub fn goto_sequence(row: u16, col: u16) -> (s: Vec<u8>)
    ensures
        s@ == goto_sequence_spec(row, col),
{
    let mut v: Vec<u8> = Vec::new();
    v.push(ESCAPE_BYTE);
    v.push(BRACKET_BYTE);
    push_decimal(row, &mut v);
    v.push(SEPARATOR_BYTE);
    push_decimal(col, &mut v);
    v.push(MOVE_TERMINATOR);
    proof {
        assert(v@ =~= goto_sequence_spec(row, col));
    }
    v
}

} // verus!
