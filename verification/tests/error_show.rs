use lang_ast::error::{Error, ErrorKind, ErrorSeverity};
use lang_ast::utils::Span;

fn sp(line: usize, start: usize, end: usize) -> Span {
    Span { line, start, end }
}

#[test]
fn severity_colors_are_fixed() {
    assert_eq!(ErrorSeverity::Warning.to_color(), "\u{001b}[33m");
    assert_eq!(ErrorSeverity::Error.to_color(), "\u{001b}[31m");
    // The mapping is pure: a second call gives the same bytes.
    assert_eq!(ErrorSeverity::Warning.to_color(), ErrorSeverity::Warning.to_color());
    assert_eq!(ErrorSeverity::Error.to_color(), ErrorSeverity::Error.to_color());
}

#[test]
fn severity_phrases_are_fixed() {
    assert_eq!(ErrorSeverity::Warning.to_string(), "warning");
    assert_eq!(ErrorSeverity::Error.to_string(), "error");
}

#[test]
fn kind_phrases_are_fixed() {
    assert_eq!(ErrorKind::UnexpectedToken.to_string(), "unexpected token");
    assert_eq!(ErrorKind::ExpectedLiteral.to_string(), "expected literal");
    assert_eq!(ErrorKind::InvalidInteger.to_string(), "invalid integer");
    assert_eq!(ErrorKind::UnexpectedBinaryOperator.to_string(), "unexpected binary operator");
    assert_eq!(ErrorKind::UnexpectedUnaryOperator.to_string(), "unexpected unary operator");
}

#[test]
fn show_renders_an_in_range_error_exactly() {
    // Six lines; the span points into the fifth (index 4), bytes 2..4.
    let source = b"l0\nl1\nl2\nl3\nline four\nl5";
    let err = Error {
        span: sp(4, 2, 4),
        kind: ErrorKind::InvalidInteger,
        severity: ErrorSeverity::Error,
    };
    let shown = err.show(source, "main.zf").expect("span is in range");
    let expected = String::new()
        + "\u{001b}[31merror\u{001b}[0m: invalid integer\n"
        + "----- main.zf:5:2\n"
        + "li\u{001b}[31mne\u{001b}[0m four\n-----";
    assert_eq!(shown, expected);
    assert!(shown.contains("error"));
    assert!(shown.contains("invalid integer"));
    assert!(shown.contains(":5:2"));
    assert!(shown.contains("main.zf"));
}

#[test]
fn show_on_a_line_past_the_buffer_yields_nothing() {
    // The same error against a two-line buffer: line index 4 is out of
    // range, so rendering is skipped rather than failing.
    let source = b"l0\nl1";
    let err = Error {
        span: sp(4, 2, 4),
        kind: ErrorKind::InvalidInteger,
        severity: ErrorSeverity::Error,
    };
    assert_eq!(err.show(source, "main.zf"), None);
}

#[test]
fn show_on_offsets_past_the_line_yields_nothing() {
    let source = b"ab\ncd";
    let err = Error {
        span: sp(1, 0, 3),
        kind: ErrorKind::UnexpectedToken,
        severity: ErrorSeverity::Warning,
    };
    assert_eq!(err.show(source, "p"), None);
    let err = Error {
        span: sp(1, 2, 1),
        kind: ErrorKind::UnexpectedToken,
        severity: ErrorSeverity::Warning,
    };
    assert_eq!(err.show(source, "p"), None);
}

#[test]
fn show_uses_the_warning_color_and_phrase() {
    let source = b"let x = 1";
    let err = Error {
        span: sp(0, 4, 5),
        kind: ErrorKind::ExpectedLiteral,
        severity: ErrorSeverity::Warning,
    };
    let shown = err.show(source, "w.zf").expect("span is in range");
    let expected = String::new()
        + "\u{001b}[33mwarning\u{001b}[0m: expected literal\n"
        + "----- w.zf:1:4\n"
        + "let \u{001b}[33mx\u{001b}[0m = 1\n-----";
    assert_eq!(shown, expected);
}

#[test]
fn show_counts_lines_one_based_with_more_than_one_digit() {
    let mut source: Vec<u8> = Vec::new();
    for _ in 0..12 {
        source.extend_from_slice(b"filler\n");
    }
    source.extend_from_slice(b"the line");
    let err = Error {
        span: sp(12, 0, 3),
        kind: ErrorKind::UnexpectedBinaryOperator,
        severity: ErrorSeverity::Error,
    };
    let shown = err.show(&source, "deep.zf").expect("span is in range");
    assert!(shown.contains("deep.zf:13:0"));
    assert!(shown.contains("unexpected binary operator"));
}
