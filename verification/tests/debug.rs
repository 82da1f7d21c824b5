use process_control::debug::chunk_lengths;
use process_control::debug::debug_buffer;
use process_control::debug::escape_byte;

fn test(result: &str, string: &[u8]) {
    assert_eq!(result, debug_buffer(string));
}

#[test]
fn test_empty() {
    test("\"\"", b"");
}

#[test]
fn test_invalid() {
    test(
        "\"\\xF1foo\\xF1\\x80bar\\xF1\\x80\\x80baz\"",
        b"\xF1foo\xF1\x80bar\xF1\x80\x80baz",
    );
}

#[test]
fn test_quote() {
    test("\"foo\\\"bar\"", b"foo\"bar");
}

#[test]
fn test_text_is_escaped() {
    test("\"a\\n\\tb\\\\c\"", b"a\n\tb\\c");
    test("\"gr\u{fc}n\"", "gr\u{fc}n".as_bytes());
    test("\"\\0\"", b"\0");
}

#[test]
fn test_bytes_that_are_no_text() {
    test("\"\\xFF\"", b"\xFF");
    test("\"\\x80\\n\"", b"\x80\n");
    test("\"a\\xC3\"", b"a\xC3");
    test("\"\\xE2\\x82\"", b"\xE2\x82");
    test("\"\\xC0\\xAF\"", b"\xC0\xAF");
    test("\"\\x9A\\xBC\\xDE\\xF0\"", b"\x9A\xBC\xDE\xF0");
}

#[test]
fn test_escape_byte() {
    assert_eq!("\\x00", escape_byte(0));
    assert_eq!("\\x0A", escape_byte(10));
    assert_eq!("\\x7F", escape_byte(0x7f));
    assert_eq!("\\x9A", escape_byte(0x9a));
    assert_eq!("\\xFF", escape_byte(0xff));
    for byte in 0..=u8::MAX {
        assert_eq!(format!("\\x{:02X}", byte), escape_byte(byte));
    }
}

#[test]
fn test_chunk_lengths() {
    // Valid bytes are all text.
    assert_eq!((5, 0), chunk_lengths(5, None));
    assert_eq!((0, 0), chunk_lengths(0, None));
    // An invalid sequence follows the valid bytes.
    assert_eq!((3, 1), chunk_lengths(5, Some((3, Some(1)))));
    assert_eq!((0, 2), chunk_lengths(5, Some((0, Some(2)))));
    assert_eq!((2, 3), chunk_lengths(5, Some((2, Some(3)))));
    // Bytes that end in the middle of a character are no text.
    assert_eq!((3, 2), chunk_lengths(5, Some((3, None))));
    assert_eq!((0, 1), chunk_lengths(1, Some((0, None))));
}

#[test]
fn test_text_between_invalid_sequences() {
    test(
        "\"a\\xF0\\x9F\\x98b\\xE2\\x82\"",
        b"a\xF0\x9F\x98b\xE2\x82",
    );
    test("\"\u{20ac}\\xE2\\x82\"", b"\xE2\x82\xAC\xE2\x82");
    test("\"\\xED\\xA0\\x80\"", b"\xED\xA0\x80");
}
