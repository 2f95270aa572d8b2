use snippet::formatter::{DefaultFormat, FormatOption, SnippetError};
use snippet::span::Span;

fn render(input: &str, start: usize, end: usize) -> String {
    let opt = FormatOption::new(DefaultFormat, DefaultFormat, DefaultFormat);
    let span = Span::new(input, start, end).unwrap();
    let mut out = String::new();
    opt.display_snippet(&span, &mut out).unwrap();
    out
}

#[test]
fn single_line_three_carets() {
    // span [1, 4) of "hello\nworld\n" highlights "ell" on line 1
    let out = render("hello\nworld\n", 1, 4);
    assert_eq!(out, "  |\n1 | hello\u{240a}\n  | h^^^\n");
    let caret_row = out.lines().last().unwrap();
    assert_eq!(caret_row.matches('^').count(), 3);
}

#[test]
fn multi_line_with_ellipsis() {
    // from inside line "a" through line "d": two lines elided
    let out = render("a\nb\nc\nd\n", 0, 7);
    assert_eq!(
        out,
        "  | v\n1 | a\u{240a}\n  | ...\n4 | d\u{240a}\n  | ^\n"
    );
}

#[test]
fn multi_line_adjacent_without_ellipsis() {
    // adjacent lines: no ellipsis row
    let out = render("x\ny\n", 0, 3);
    assert_eq!(out, "  | v\n1 | x\u{240a}\n2 | y\u{240a}\n  | ^\n");
    assert!(!out.contains("..."));
}

#[test]
fn empty_span_renders_zero_carets() {
    let out = render("hello\nworld\n", 2, 2);
    assert_eq!(out, "  |\n1 | hello\u{240a}\n  | he\n");
    assert_eq!(out.matches('^').count(), 0);
}

#[test]
fn empty_buffer_is_one_empty_line() {
    let out = render("", 0, 0);
    assert_eq!(out, "  |\n1 | \n  | \n");
}

#[test]
fn out_of_bounds_span_is_reported() {
    let opt = FormatOption::new(DefaultFormat, DefaultFormat, DefaultFormat);
    let span = Span { input: "abc", start: 1, end: 10 };
    let mut out = String::new();
    assert_eq!(
        opt.display_snippet(&span, &mut out),
        Err(SnippetError::OutOfBoundsSpan)
    );
    assert_eq!(out, "");
}

#[test]
fn reversed_span_is_reported() {
    let opt = FormatOption::new(DefaultFormat, DefaultFormat, DefaultFormat);
    let span = Span { input: "abc", start: 2, end: 1 };
    let mut out = String::new();
    assert_eq!(
        opt.display_snippet(&span, &mut out),
        Err(SnippetError::OutOfBoundsSpan)
    );
    assert_eq!(out, "");
}

#[test]
fn two_digit_gutter_single_line() {
    let out = render("a\nb\nc\nd\ne\nf\ng\nh\ni\nj\n", 19, 20);
    assert_eq!(out, "   |\n10 | j\u{240a}\n   | j^\n");
}

#[test]
fn two_digit_gutter_pads_start_number() {
    let out = render("a\nb\nc\nd\ne\nf\ng\nh\ni\nj\n", 17, 19);
    assert_eq!(out, "   | iv\n 9 | i\u{240a}\n10 | j\u{240a}\n   | ^\n");
}

#[test]
fn multi_line_columns_inside_lines() {
    let out = render("abc\ndef\nghi\n", 1, 10);
    assert_eq!(
        out,
        "  | av\n1 | abc\u{240a}\n  | ...\n3 | ghi\u{240a}\n  | g^\n"
    );
}

#[test]
fn offset_at_line_end_belongs_to_that_line() {
    // offset 3 is the accumulated end of "ab\n": it resolves into line 1
    let out = render("ab\ncd", 0, 3);
    assert_eq!(out, "  |\n1 | ab\u{240a}\n  | ^^^\n");
}

#[test]
fn default_options_pass_text_through() {
    let opt: FormatOption<DefaultFormat, DefaultFormat, DefaultFormat> = Default::default();
    let span = Span::new("one\n", 0, 3).unwrap();
    let mut out = String::new();
    opt.display_snippet(&span, &mut out).unwrap();
    assert_eq!(out, "  |\n1 | one\u{240a}\n  | ^^^\n");
}

#[test]
fn columns_count_characters() {
    let out = render("h\u{e9}llo\n", 1, 3);
    assert_eq!(out, "  |\n1 | h\u{e9}llo\u{240a}\n  | h^^\n");
}

#[test]
fn visualize_white_space_replaces_terminators() {
    let v = FormatOption::<DefaultFormat, DefaultFormat, DefaultFormat>::visualize_white_space(
        "a\r\nb",
    );
    assert_eq!(v, "a\u{240d}\u{240a}b");
}

#[test]
fn visualize_white_space_keeps_other_text() {
    let v = FormatOption::<DefaultFormat, DefaultFormat, DefaultFormat>::visualize_white_space(
        "plain text",
    );
    assert_eq!(v, "plain text");
}
