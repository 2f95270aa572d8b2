use snippet::resolve::{resolve_span, Pos};
use snippet::span::Span;

#[test]
fn resolves_both_offsets() {
    let (s, e) = resolve_span("a\nb\n", 0, 3);
    assert_eq!(s, Pos { line: 0, col: 0 });
    assert_eq!(e, Pos { line: 1, col: 1 });
}

#[test]
fn offset_at_accumulated_line_end_stays_on_the_line() {
    let (s, e) = resolve_span("a\nb", 2, 2);
    assert_eq!(s, Pos { line: 0, col: 2 });
    assert_eq!(e, Pos { line: 0, col: 2 });
}

#[test]
fn start_line_never_after_end_line() {
    let buffer = "one\ntwo\nthree\n";
    for start in 0..buffer.len() {
        for end in start..=buffer.len() {
            let (s, e) = resolve_span(buffer, start, end);
            assert!(s.line <= e.line);
        }
    }
}

#[test]
fn empty_buffer_resolves_to_origin() {
    let (s, e) = resolve_span("", 0, 0);
    assert_eq!(s, Pos { line: 0, col: 0 });
    assert_eq!(e, Pos { line: 0, col: 0 });
}

#[test]
fn span_new_checks_bounds() {
    assert!(Span::new("abc", 0, 3).is_some());
    assert!(Span::new("abc", 3, 3).is_some());
    assert!(Span::new("abc", 0, 4).is_none());
    assert!(Span::new("abc", 2, 1).is_none());
}

#[test]
fn span_getters_return_its_parts() {
    let span = Span::new("abc\ndef", 2, 5).unwrap();
    assert_eq!(span.get_input(), "abc\ndef");
    assert_eq!(span.start(), 2);
    assert_eq!(span.end(), 5);
}
