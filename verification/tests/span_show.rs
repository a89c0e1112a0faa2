use lang_ast::utils::Span;

fn sp(line: usize, start: usize, end: usize) -> Span {
    Span { line, start, end }
}

#[test]
fn default_span_is_zeroed() {
    assert_eq!(Span::default(), sp(0, 0, 0));
}

#[test]
fn show_colorizes_the_spanned_range() {
    let shown = sp(0, 4, 6).show(b"let xy = 1", "\u{001b}[31m").expect("in range");
    assert_eq!(shown, "let \u{001b}[31mxy\u{001b}[0m = 1");
}

#[test]
fn show_picks_the_right_line() {
    let shown = sp(1, 0, 1).show(b"aa\nbb\ncc", "C").expect("in range");
    assert_eq!(shown, "Cb\u{001b}[0mb");
}

#[test]
fn show_on_the_empty_buffer_treats_it_as_one_empty_line() {
    let shown = sp(0, 0, 0).show(b"", "C").expect("in range");
    assert_eq!(shown, "C\u{001b}[0m");
    assert_eq!(sp(1, 0, 0).show(b"", "C"), None);
}

#[test]
fn show_after_a_trailing_newline_finds_an_empty_final_line() {
    let shown = sp(1, 0, 0).show(b"ab\n", "C").expect("in range");
    assert_eq!(shown, "C\u{001b}[0m");
    assert_eq!(sp(2, 0, 0).show(b"ab\n", "C"), None);
}

#[test]
fn show_rejects_offsets_outside_the_line() {
    // End past the line, start past the end, and a line past the buffer all
    // yield nothing instead of failing.
    assert_eq!(sp(0, 0, 4).show(b"abc\nlonger", "C"), None);
    assert_eq!(sp(0, 2, 1).show(b"abc", "C"), None);
    assert_eq!(sp(3, 0, 0).show(b"abc\ndef", "C"), None);
}

#[test]
fn show_keeps_an_empty_highlight_range() {
    let shown = sp(0, 1, 1).show(b"abc", "C").expect("in range");
    assert_eq!(shown, "aC\u{001b}[0mbc");
}
