//! Mathematical model of the editor state: the buffer as a sequence of lines
//! (each a sequence of Unicode scalar values), the cursor as a (row, column)
//! pair, and the viewport as a scroll offset. Every executable operation of
//! the editor is specified against the functions in this module.

use vstd::prelude::*;

verus! {

/// The abstract contents of a buffer: one `Seq<char>` per line.
pub open spec fn views(s: Seq<Vec<char>>) -> Seq<Seq<char>> {
    Seq::new(s.len(), |i: int| s[i]@)
}

/// A cursor is valid when its row indexes a line and its column lies between
/// 0 and that line's length; the column may equal the length (the "append"
/// position at the end of the line).
pub open spec fn valid_cursor(lines: Seq<Seq<char>>, row: int, col: int) -> bool {
    &&& 0 <= row < lines.len()
    &&& 0 <= col <= lines[row].len()
}

/// Cursor after a Left move: back one column, or to the end of the previous
/// line, or unchanged at (0, 0).
pub open spec fn cursor_after_left(lines: Seq<Seq<char>>, row: int, col: int) -> (int, int) {
    if col > 0 {
        (row, col - 1)
    } else if row > 0 {
        (row - 1, lines[row - 1].len() as int)
    } else {
        (row, col)
    }
}

/// Cursor after a Right move: forward one column, or to the start of the next
/// line, or unchanged at the end of the last line.
pub open spec fn cursor_after_right(lines: Seq<Seq<char>>, row: int, col: int) -> (int, int) {
    if col < lines[row].len() {
        (row, col + 1)
    } else if row < lines.len() - 1 {
        (row + 1, 0)
    } else {
        (row, col)
    }
}

/// Cursor after an Up move: one row up with the column clamped to the new
/// line's length (horizontal intent is preserved where possible).
pub open spec fn cursor_after_up(lines: Seq<Seq<char>>, row: int, col: int) -> (int, int) {
    if row > 0 {
        let w = lines[row - 1].len() as int;
        (row - 1, if col <= w { col } else { w })
    } else {
        (row, col)
    }
}

/// Cursor after a Down move: one row down with the column clamped, unchanged
/// on the last row.
pub open spec fn cursor_after_down(lines: Seq<Seq<char>>, row: int, col: int) -> (int, int) {
    if row < lines.len() - 1 {
        let w = lines[row + 1].len() as int;
        (row + 1, if col <= w { col } else { w })
    } else {
        (row, col)
    }
}

/// Buffer after inserting character `c` at column `col` of line `row`.
pub open spec fn lines_after_insert(lines: Seq<Seq<char>>, row: int, col: int, c: char) -> Seq<
    Seq<char>,
> {
    lines.update(row, lines[row].insert(col, c))
}

/// Buffer after splitting line `row` at column `col`: the line keeps its
/// first `col` characters and the remainder becomes a new line at `row + 1`.
pub open spec fn lines_after_split(lines: Seq<Seq<char>>, row: int, col: int) -> Seq<Seq<char>> {
    lines.update(row, lines[row].take(col)).insert(row + 1, lines[row].skip(col))
}

/// Buffer after joining line `row` into the previous line: line `row` is
/// removed and its full content appended to line `row - 1`.
pub open spec fn lines_after_join(lines: Seq<Seq<char>>, row: int) -> Seq<Seq<char>> {
    lines.update(row - 1, lines[row - 1] + lines[row]).remove(row)
}

/// Buffer after a Backspace at (row, col): remove the character before the
/// cursor, or join into the previous line at column 0, or nothing at (0, 0).
pub open spec fn lines_after_backspace(lines: Seq<Seq<char>>, row: int, col: int) -> Seq<
    Seq<char>,
> {
    if col > 0 {
        lines.update(row, lines[row].remove(col - 1))
    } else if row > 0 {
        lines_after_join(lines, row)
    } else {
        lines
    }
}

/// Cursor after a Backspace at (row, col): back one column, or to the join
/// point at the end of the previous line, or unchanged at (0, 0).
pub open spec fn cursor_after_backspace(lines: Seq<Seq<char>>, row: int, col: int) -> (int, int) {
    if col > 0 {
        (row, col - 1)
    } else if row > 0 {
        (row - 1, lines[row - 1].len() as int)
    } else {
        (row, col)
    }
}

/// Buffer after deleting line `row` outright; removing the last line leaves
/// a single empty line, so the buffer is never empty.
pub open spec fn lines_after_delete(lines: Seq<Seq<char>>, row: int) -> Seq<Seq<char>> {
    if lines.len() > 1 {
        lines.remove(row)
    } else {
        seq![Seq::<char>::empty()]
    }
}

/// Cursor row after deleting line `row`: unchanged if it still indexes a
/// line, else clamped to the new last row.
pub open spec fn row_after_delete(lines: Seq<Seq<char>>, row: int) -> int {
    if row < lines_after_delete(lines, row).len() {
        row
    } else {
        lines_after_delete(lines, row).len() - 1
    }
}

/// Scroll offset after revealing `row` in a viewport of `height` rows:
/// scroll up to `row`, or down so that `row` is the last visible row, or
/// stay put when `row` is already visible.
pub open spec fn offset_after_adjust(offset: int, row: int, height: int) -> int {
    if row < offset {
        row
    } else if row >= offset + height {
        row - height + 1
    } else {
        offset
    }
}

} // verus!
