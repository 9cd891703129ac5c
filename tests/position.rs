use nickel_js::position::{Position, Span, Utf16Cursor};

fn cursor(text: &str) -> Utf16Cursor {
    Utf16Cursor::new(text.chars().collect()).unwrap()
}

#[test]
fn offset_after_astral_char_is_line_one_char_three() {
    // "a\nb😀c": a=0, \n=1, b=2, 😀=3..7, c=7
    let mut c = cursor("a\nb\u{1F600}c");
    assert_eq!(c.advance_to(7), Position { line: 1, character: 3 });
    assert_eq!(c.advance_to(8), Position { line: 1, character: 4 });
}

#[test]
fn carriage_return_before_newline_counts_nothing() {
    let mut c = cursor("ab\r\ncd");
    assert_eq!(c.advance_to(2), Position { line: 0, character: 2 });
    assert_eq!(c.advance_to(3), Position { line: 0, character: 2 });
    assert_eq!(c.advance_to(5), Position { line: 1, character: 1 });
}

#[test]
fn two_byte_and_three_byte_chars_are_one_unit() {
    // é takes 2 bytes, € takes 3; both are one UTF-16 unit.
    let mut c = cursor("\u{e9}\u{20ac}x");
    assert_eq!(c.advance_to(2), Position { line: 0, character: 1 });
    assert_eq!(c.advance_to(5), Position { line: 0, character: 2 });
}

#[test]
fn offset_zero_is_origin() {
    let mut c = cursor("abc");
    assert_eq!(c.advance_to(0), Position { line: 0, character: 0 });
}

#[test]
fn offset_inside_a_char_runs_to_end() {
    // Offset 1 falls inside the two-byte é: the scan never meets it.
    let mut c = cursor("\u{e9}\nab");
    assert_eq!(c.advance_to(1), Position { line: 1, character: 2 });
}

#[test]
fn offset_past_end_stops_at_end() {
    let mut c = cursor("a\nbc");
    assert_eq!(c.advance_to(100), Position { line: 1, character: 2 });
}

#[test]
fn empty_text_maps_to_origin() {
    let mut c = cursor("");
    assert_eq!(c.advance_to(3), Position { line: 0, character: 0 });
}

#[test]
fn unknown_span_is_all_zero() {
    let s = Span::unknown();
    assert_eq!(s.start, Position { line: 0, character: 0 });
    assert_eq!(s.end, Position { line: 0, character: 0 });
}
