use quakeditor::editor::Editor;

const ROWS: usize = 10;

fn line(s: &str) -> Vec<char> {
    s.chars().collect()
}

fn ed(lines: &[&str]) -> Editor {
    Editor {
        content: lines.iter().map(|s| s.chars().collect()).collect(),
        filename: String::from("t.txt"),
        cursor_row: 0,
        cursor_col: 0,
        saved: true,
        viewport_offset: 0,
    }
}

fn in_valid_range(e: &Editor) -> bool {
    e.cursor_row < e.content.len() && e.cursor_col <= e.content[e.cursor_row].len()
}

#[test]
fn left_moves_back_one_column() {
    let mut e = ed(&["abc"]);
    e.cursor_col = 2;
    e.move_cursor_left(ROWS);
    assert_eq!((e.cursor_row, e.cursor_col), (0, 1));
}

#[test]
fn left_at_column_zero_goes_to_end_of_previous_line() {
    let mut e = ed(&["abc", "de"]);
    e.cursor_row = 1;
    e.move_cursor_left(ROWS);
    assert_eq!((e.cursor_row, e.cursor_col), (0, 3));
}

#[test]
fn left_at_origin_is_a_no_op() {
    let mut e = ed(&["abc"]);
    e.move_cursor_left(ROWS);
    assert_eq!((e.cursor_row, e.cursor_col), (0, 0));
    assert_eq!(e.content, vec![line("abc")]);
}

#[test]
fn right_moves_forward_one_column() {
    let mut e = ed(&["abc"]);
    e.move_cursor_right(ROWS);
    assert_eq!((e.cursor_row, e.cursor_col), (0, 1));
}

#[test]
fn right_at_end_of_line_goes_to_next_line_start() {
    let mut e = ed(&["ab", "cd"]);
    e.cursor_col = 2;
    e.move_cursor_right(ROWS);
    assert_eq!((e.cursor_row, e.cursor_col), (1, 0));
}

#[test]
fn right_at_end_of_last_line_is_a_no_op() {
    let mut e = ed(&["ab"]);
    e.cursor_col = 2;
    e.move_cursor_right(ROWS);
    assert_eq!((e.cursor_row, e.cursor_col), (0, 2));
}

#[test]
fn up_clamps_column_to_shorter_line() {
    let mut e = ed(&["ab", "longer"]);
    e.cursor_row = 1;
    e.cursor_col = 5;
    e.move_cursor_up(ROWS);
    assert_eq!((e.cursor_row, e.cursor_col), (0, 2));
}

#[test]
fn up_keeps_column_when_it_fits() {
    let mut e = ed(&["long", "ab"]);
    e.cursor_row = 1;
    e.cursor_col = 2;
    e.move_cursor_up(ROWS);
    assert_eq!((e.cursor_row, e.cursor_col), (0, 2));
}

#[test]
fn down_clamps_column_to_shorter_line() {
    let mut e = ed(&["longer", "ab"]);
    e.cursor_col = 6;
    e.move_cursor_down(ROWS);
    assert_eq!((e.cursor_row, e.cursor_col), (1, 2));
}

#[test]
fn down_on_last_row_is_a_no_op() {
    let mut e = ed(&["ab"]);
    e.cursor_col = 1;
    e.move_cursor_down(ROWS);
    assert_eq!((e.cursor_row, e.cursor_col), (0, 1));
}

#[test]
fn left_right_walk_never_leaves_valid_range() {
    let mut e = ed(&["abc", "", "defgh"]);
    let steps = [
        true, true, true, true, false, true, true, true, true, true, true, true, false, false,
        false, false, false, false, false, false, false, false, false, false,
    ];
    for &right in steps.iter() {
        if right {
            e.move_cursor_right(ROWS);
        } else {
            e.move_cursor_left(ROWS);
        }
        assert!(in_valid_range(&e));
    }
}

#[test]
fn insert_then_backspace_restores_line() {
    let mut e = ed(&["abcd"]);
    e.cursor_col = 2;
    e.insert_char('X');
    assert_eq!(e.content, vec![line("abXcd")]);
    assert_eq!((e.cursor_row, e.cursor_col), (0, 3));
    e.backspace(ROWS);
    assert_eq!(e.content, vec![line("abcd")]);
    assert_eq!((e.cursor_row, e.cursor_col), (0, 2));
}

#[test]
fn split_then_backspace_reconstructs_line() {
    let mut e = ed(&["hello world"]);
    e.cursor_col = 5;
    e.insert_newline(ROWS);
    assert_eq!(e.content, vec![line("hello"), line(" world")]);
    assert_eq!((e.cursor_row, e.cursor_col), (1, 0));
    e.backspace(ROWS);
    assert_eq!(e.content, vec![line("hello world")]);
    assert_eq!((e.cursor_row, e.cursor_col), (0, 5));
}

#[test]
fn enter_at_end_of_line_inserts_empty_line() {
    let mut e = ed(&["abc", "de"]);
    e.cursor_col = 3;
    e.insert_newline(ROWS);
    assert_eq!(e.content, vec![line("abc"), line(""), line("de")]);
    assert_eq!((e.cursor_row, e.cursor_col), (1, 0));
}

#[test]
fn backspace_at_origin_changes_nothing() {
    let mut e = ed(&["ab"]);
    e.backspace(ROWS);
    assert_eq!(e.content, vec![line("ab")]);
    assert_eq!((e.cursor_row, e.cursor_col), (0, 0));
}

#[test]
fn backspace_joins_into_previous_line() {
    let mut e = ed(&["abc", "de"]);
    e.cursor_row = 1;
    e.backspace(ROWS);
    assert_eq!(e.content, vec![line("abcde")]);
    assert_eq!((e.cursor_row, e.cursor_col), (0, 3));
}

#[test]
fn delete_removes_current_line_and_dirties() {
    let mut e = ed(&["abc", "de", "f"]);
    e.cursor_row = 1;
    e.cursor_col = 2;
    e.delete_current_line(ROWS);
    assert_eq!(e.content, vec![line("abc"), line("f")]);
    assert_eq!((e.cursor_row, e.cursor_col), (1, 0));
    assert!(!e.saved);
}

#[test]
fn delete_on_last_row_clamps_cursor() {
    let mut e = ed(&["abc", "de"]);
    e.cursor_row = 1;
    e.delete_current_line(ROWS);
    assert_eq!(e.content, vec![line("abc")]);
    assert_eq!((e.cursor_row, e.cursor_col), (0, 0));
}

#[test]
fn repeated_delete_leaves_one_empty_line() {
    let mut e = ed(&["abc", "de"]);
    e.delete_current_line(ROWS);
    e.delete_current_line(ROWS);
    assert_eq!(e.content, vec![line("")]);
    e.delete_current_line(ROWS);
    assert_eq!(e.content, vec![line("")]);
    assert_eq!((e.cursor_row, e.cursor_col), (0, 0));
}

#[test]
fn viewport_follows_cursor_down_and_up() {
    let rows = 4;
    let mut e = ed(&["0", "1", "2", "3", "4", "5"]);
    for _ in 0..5 {
        e.move_cursor_down(rows);
        assert!(e.viewport_offset <= e.cursor_row);
        assert!(e.cursor_row < e.viewport_offset + (rows - 1));
    }
    assert_eq!(e.cursor_row, 5);
    assert_eq!(e.viewport_offset, 3);
    for _ in 0..5 {
        e.move_cursor_up(rows);
        assert!(e.viewport_offset <= e.cursor_row);
        assert!(e.cursor_row < e.viewport_offset + (rows - 1));
    }
    assert_eq!(e.cursor_row, 0);
    assert_eq!(e.viewport_offset, 0);
}

#[test]
fn viewport_invariant_holds_after_edits() {
    let rows = 3;
    let mut e = ed(&["a"]);
    for _ in 0..4 {
        e.insert_newline(rows);
        assert!(e.viewport_offset <= e.cursor_row);
        assert!(e.cursor_row < e.viewport_offset + (rows - 1));
    }
    e.delete_current_line(rows);
    assert!(e.viewport_offset <= e.cursor_row);
    assert!(e.cursor_row < e.viewport_offset + (rows - 1));
}

#[test]
fn visible_lines_show_the_scrolled_window() {
    let rows = 3;
    let mut e = ed(&["0", "1", "2", "3"]);
    for _ in 0..3 {
        e.move_cursor_down(rows);
    }
    assert_eq!(e.viewport_offset, 2);
    assert_eq!(e.visible_lines(rows), vec![line("2"), line("3")]);
    assert_eq!(e.screen_cursor_row(), 1);
}

#[test]
fn visible_lines_cut_off_at_buffer_end() {
    let e = ed(&["0", "1"]);
    assert_eq!(e.visible_lines(ROWS), vec![line("0"), line("1")]);
    assert_eq!(e.screen_cursor_row(), 0);
}

#[test]
fn mark_saved_clears_dirty_only() {
    let mut e = ed(&["ab"]);
    e.insert_char('x');
    e.saved = false;
    e.mark_saved();
    assert!(e.saved);
    assert_eq!(e.content, vec![line("xab")]);
    assert_eq!((e.cursor_row, e.cursor_col), (0, 1));
}

#[test]
fn is_well_formed_accepts_fresh_editor() {
    let e = ed(&["ab"]);
    assert!(e.is_well_formed());
    let mut bad = ed(&["ab"]);
    bad.cursor_col = 3;
    assert!(!bad.is_well_formed());
}
