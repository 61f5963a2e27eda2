use quakeditor::editor::Editor;

fn line(s: &str) -> Vec<char> {
    s.chars().collect()
}

fn chars(s: &str) -> Vec<char> {
    s.chars().collect()
}

fn open(text: &str) -> Editor {
    Editor::new(String::from("t.txt"), chars(text))
}

#[test]
fn new_splits_lines_at_newline() {
    let e = open("abc\nde");
    assert_eq!(e.content, vec![line("abc"), line("de")]);
    assert_eq!(e.cursor_row, 0);
    assert_eq!(e.cursor_col, 0);
    assert_eq!(e.viewport_offset, 0);
    assert!(e.saved);
}

#[test]
fn new_empty_text_gives_one_empty_line() {
    let e = open("");
    assert_eq!(e.content, vec![line("")]);
}

#[test]
fn new_trailing_newline_opens_no_extra_line() {
    let e = open("a\n");
    assert_eq!(e.content, vec![line("a")]);
}

#[test]
fn new_lone_newline_gives_one_empty_line() {
    let e = open("\n");
    assert_eq!(e.content, vec![line("")]);
}

#[test]
fn new_splits_at_crlf() {
    let e = open("ab\r\ncd");
    assert_eq!(e.content, vec![line("ab"), line("cd")]);
}

#[test]
fn new_keeps_lone_carriage_return() {
    let e = open("a\rb");
    assert_eq!(e.content, vec![line("a\rb")]);
}

#[test]
fn new_keeps_empty_middle_lines() {
    let e = open("a\n\nb");
    assert_eq!(e.content, vec![line("a"), line(""), line("b")]);
}

#[test]
fn to_text_joins_with_newline() {
    let e = open("abc\nde");
    let text: String = e.to_text().into_iter().collect();
    assert_eq!(text, "abc\nde");
}

#[test]
fn to_text_of_single_empty_line_is_empty() {
    let e = open("");
    let text: String = e.to_text().into_iter().collect();
    assert_eq!(text, "");
}

#[test]
fn to_text_round_trips_after_edits() {
    let mut e = open("hello\nworld");
    e.insert_char('!');
    let text: String = e.to_text().into_iter().collect();
    assert_eq!(text, "!hello\nworld");
}

#[test]
fn line_number_width_counts_digits() {
    let e = open("a");
    assert_eq!(e.line_number_width(), 1);
    let ten = open("0\n1\n2\n3\n4\n5\n6\n7\n8\n9");
    assert_eq!(ten.content.len(), 10);
    assert_eq!(ten.line_number_width(), 2);
}
