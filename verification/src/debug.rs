//! Captured output in a form that can be read in a terminal.
//!
//! What a process writes need not be text. The parts of a buffer that are
//! valid UTF-8 are shown as text, with the characters escaped that a string
//! literal would escape, and every other byte is shown by its two
//! hexadecimal digits.

use vstd::prelude::*;

verus! {

/// Where `std::str::from_utf8` finds that `bytes` stop being valid UTF-8:
/// nothing if they are valid throughout; else what the error's
/// `valid_up_to` and `error_len` give.
pub uninterp spec fn utf8_error(bytes: Seq<u8>) -> Option<(usize, Option<usize>)>;

/// The text that `str::escape_debug` makes of `text`.
pub uninterp spec fn escaped(text: Seq<char>) -> Seq<char>;

/// The hexadecimal digit for a value below 16, with capital letters.
pub open spec fn hex_digit(value: int) -> char {
    "0123456789ABCDEF"@[value]
}

/// A byte shown by a backslash, an `x` and its two hexadecimal digits.
pub open spec fn hex_escape(byte: u8) -> Seq<char> {
    seq!['\\', 'x', hex_digit(byte as int / 16), hex_digit(byte as int % 16)]
}

/// Whether an error of the UTF-8 check is one that the check can give for
/// `left` bytes: the valid part stops short of the end, and an invalid
/// sequence behind it holds at least the byte that was not expected and
/// lies within the bytes.
pub open spec fn fits(left: int, error: Option<(usize, Option<usize>)>) -> bool {
    match error {
        None => true,
        Some((valid_up_to, error_len)) => valid_up_to < left && match error_len {
            None => true,
            Some(length) => 1 <= length && valid_up_to + length <= left,
        },
    }
}

/// Checks `bytes` with `std::str::from_utf8` and, if they are not valid
/// UTF-8, returns the error's `valid_up_to` and `error_len`.
///
/// As documented, there is an error exactly if the bytes are not valid
/// UTF-8; `valid_up_to` lies within the bytes, and the bytes before it are
/// valid; an `error_len` is the length of the invalid sequence that starts
/// there, which holds the unexpected byte and lies within the bytes.
#[verifier::external_body]
fn check_utf8(bytes: &[u8]) -> (error: Option<(usize, Option<usize>)>)
    ensures
        error == utf8_error(bytes@),
        error.is_none() <==> vstd::utf8::valid_utf8(bytes@),
        error matches Some((valid_up_to, error_len)) ==> {
            &&& valid_up_to <= bytes@.len()
            &&& vstd::utf8::valid_utf8(bytes@.take(valid_up_to as int))
            &&& error_len matches Some(length) ==> 1 <= length && valid_up_to + length
                <= bytes@.len()
        },
{
    match std::str::from_utf8(bytes) {
        Ok(_) => None,
        Err(error) => Some((error.valid_up_to(), error.error_len())),
    }
}

/// Reads `bytes` as text with `String::from_utf8_lossy`, which keeps valid
/// UTF-8 as it is: such bytes yield the text that they encode. Nothing is
/// claimed of what other bytes yield.
#[verifier::external_body]
fn read_text(bytes: &[u8]) -> (text: String)
    ensures
        vstd::utf8::valid_utf8(bytes@) ==> text@ == vstd::utf8::decode_utf8(bytes@),
{
    String::from_utf8_lossy(bytes).into_owned()
}

/// Escapes `text` with `str::escape_debug`.
#[verifier::external_body]
fn escape_text(text: &str) -> (result: String)
    ensures
        result@ == escaped(text@),
{
    text.escape_debug().collect()
}

/// Adds `more` to the end of `text` with `String::push_str`.
#[verifier::external_body]
fn push_str(text: &mut String, more: &str)
    ensures
        final(text)@ == old(text)@ + more@,
{
    text.push_str(more)
}

fn digit(value: u8) -> (text: &'static str)
    requires
        value < 16,
    ensures
        text@ == seq![hex_digit(value as int)],
{
    proof {
        reveal_strlit("0123456789ABCDEF");
        reveal_strlit("0");
        reveal_strlit("1");
        reveal_strlit("2");
        reveal_strlit("3");
        reveal_strlit("4");
        reveal_strlit("5");
        reveal_strlit("6");
        reveal_strlit("7");
        reveal_strlit("8");
        reveal_strlit("9");
        reveal_strlit("A");
        reveal_strlit("B");
        reveal_strlit("C");
        reveal_strlit("D");
        reveal_strlit("E");
        reveal_strlit("F");
    }
    let text = if value == 0 {
        "0"
    } else if value == 1 {
        "1"
    } else if value == 2 {
        "2"
    } else if value == 3 {
        "3"
    } else if value == 4 {
        "4"
    } else if value == 5 {
        "5"
    } else if value == 6 {
        "6"
    } else if value == 7 {
        "7"
    } else if value == 8 {
        "8"
    } else if value == 9 {
        "9"
    } else if value == 10 {
        "A"
    } else if value == 11 {
        "B"
    } else if value == 12 {
        "C"
    } else if value == 13 {
        "D"
    } else if value == 14 {
        "E"
    } else {
        "F"
    };
    assert(text@ =~= seq![hex_digit(value as int)]);
    text
}

/// Shows `byte` by a backslash, an `x` and its two hexadecimal digits.
pub fn escape_byte(byte: u8) -> (result: String)
    ensures
        result@ == hex_escape(byte),
{
    proof {
        reveal_strlit("\\x");
    }
    let mut result = "\\x".to_owned();
    push_str(&mut result, digit(byte / 16));
    push_str(&mut result, digit(byte % 16));
    assert(result@ =~= hex_escape(byte));
    result
}

/// Each of `bytes` shown by its hexadecimal digits, one after the other.
pub open spec fn hex_escapes(bytes: Seq<u8>) -> Seq<char>
    decreases bytes.len(),
{
    if bytes.len() == 0 {
        Seq::empty()
    } else {
        hex_escapes(bytes.drop_last()) + hex_escape(bytes.last())
    }
}

/// How many of the next `left` bytes are shown as text, and how many after
/// those by their hexadecimal digits, before text is tried again. `error`
/// is where the bytes stop being valid UTF-8, if they do.
///
/// Valid bytes are all shown as text. Else as many are shown as text as
/// are valid, and the invalid sequence behind them by its digits, or all
/// that are left if the bytes end in the middle of a character.
pub open spec fn lengths(left: int, error: Option<(usize, Option<usize>)>) -> (int, int) {
    match error {
        None => (left, 0),
        Some((valid_up_to, None)) => (valid_up_to as int, left - valid_up_to),
        Some((valid_up_to, Some(length))) => (valid_up_to as int, length as int),
    }
}

/// Computes how many of the next `left` bytes are shown as text and how
/// many by their hexadecimal digits.
pub fn chunk_lengths(left: usize, error: Option<(usize, Option<usize>)>) -> (counts: (
    usize,
    usize,
))
    requires
        fits(left as int, error),
    ensures
        (counts.0 as int, counts.1 as int) == lengths(left as int, error),
        counts.0 + counts.1 <= left,
        left > 0 ==> counts.0 + counts.1 > 0,
{
    match error {
        None => (left, 0),
        Some((valid_up_to, None)) => (valid_up_to, left - valid_up_to),
        Some((valid_up_to, Some(length))) => (valid_up_to, length),
    }
}

/// How many of `bytes` are shown as text before the first that is not.
pub open spec fn valid_length(bytes: Seq<u8>) -> int {
    lengths(bytes.len() as int, utf8_error(bytes)).0
}

/// How many of `bytes`, after those that are shown as text, are shown by
/// their hexadecimal digits before text is tried again.
pub open spec fn invalid_length(bytes: Seq<u8>) -> int {
    lengths(bytes.len() as int, utf8_error(bytes)).1
}

/// The bytes in readable form, without the quotes around them: the text
/// that their valid start encodes, escaped; the invalid sequence behind it
/// by its digits; and what follows that in the same way.
pub open spec fn readable(bytes: Seq<u8>) -> Seq<char>
    decreases bytes.len(),
{
    if bytes.len() == 0 || !fits(bytes.len() as int, utf8_error(bytes)) {
        Seq::empty()
    } else {
        let valid = valid_length(bytes);
        let invalid = invalid_length(bytes);
        escaped(vstd::utf8::decode_utf8(bytes.take(valid))) + hex_escapes(
            bytes.subrange(valid, valid + invalid),
        ) + readable(bytes.skip(valid + invalid))
    }
}

/// The bytes in readable form between double quotes.
pub open spec fn quoted(bytes: Seq<u8>) -> Seq<char> {
    "\""@ + readable(bytes) + "\""@
}

fn push_hex(text: &mut String, bytes: &[u8])
    ensures
        final(text)@ == old(text)@ + hex_escapes(bytes@),
{
    let mut i: usize = 0;
    assert(bytes@.take(0) =~= Seq::<u8>::empty());
    assert(text@ + hex_escapes(bytes@.take(0)) =~= text@);
    while i < bytes.len()
        invariant
            i <= bytes@.len(),
            text@ == old(text)@ + hex_escapes(bytes@.take(i as int)),
        decreases bytes@.len() - i,
    {
        let escape = escape_byte(bytes[i]);
        let ghost before = text@;
        push_str(text, escape.as_str());
        proof {
            let shorter = bytes@.take(i as int);
            let longer = bytes@.take(i + 1);
            assert(longer.drop_last() =~= shorter);
            assert(longer.last() == bytes@[i as int]);
            assert(text@ =~= old(text)@ + hex_escapes(longer));
        }
        i = i + 1;
    }
    assert(bytes@.take(i as int) =~= bytes@);
}

/// Shows `bytes` between double quotes: what is valid UTF-8 as escaped
/// text, every other byte as `\x` and its two hexadecimal digits.
pub fn debug_buffer(bytes: &[u8]) -> (text: String)
    ensures
        text@ == quoted(bytes@),
{
    let mut text = "\"".to_owned();
    let mut position: usize = 0;
    let length = bytes.len();
    assert(bytes@.skip(0) =~= bytes@);
    while position < length
        invariant
            position <= length,
            length == bytes@.len(),
            text@ + readable(bytes@.skip(position as int)) == "\""@ + readable(bytes@),
        decreases length - position,
    {
        let rest = vstd::slice::slice_subrange(bytes, position, length);
        assert(rest@ =~= bytes@.skip(position as int));
        let left = length - position;
        let error = check_utf8(rest);
        proof {
            assert(rest@.take(rest@.len() as int) =~= rest@);
            assert(fits(left as int, error));
        }
        let (valid, invalid): (usize, usize) = chunk_lengths(left, error);
        assert(valid == valid_length(rest@));
        assert(invalid == invalid_length(rest@));
        let part = vstd::slice::slice_subrange(rest, 0, valid);
        assert(part@ =~= rest@.take(valid as int));
        let shown = read_text(part);
        let escaped_text = escape_text(shown.as_str());
        let ghost before = text@;
        push_str(&mut text, escaped_text.as_str());
        push_hex(&mut text, vstd::slice::slice_subrange(rest, valid, valid + invalid));
        proof {
            let step = valid + invalid;
            assert(rest@.skip(step as int) =~= bytes@.skip(position + step));
            assert(text@ == before + escaped(vstd::utf8::decode_utf8(rest@.take(valid as int)))
                + hex_escapes(rest@.subrange(valid as int, valid + invalid)));
            assert(text@ + readable(bytes@.skip(position + step)) =~= before + readable(rest@));
        }
        position = position + valid + invalid;
    }
    assert(readable(bytes@.skip(position as int)) =~= Seq::<char>::empty());
    assert(text@ + Seq::<char>::empty() =~= text@);
    push_str(&mut text, "\"");
    text
}

} // verus!
