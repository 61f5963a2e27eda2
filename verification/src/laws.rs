//! General properties of the editor model, each proved once and for all:
//! cursor moves never leave the valid range, insert and backspace are
//! inverses, split and join are inverses, the viewport recompute always
//! reveals the cursor, and deletion never empties the buffer.

use vstd::prelude::*;

use crate::engine::Key;
use crate::model::{
    cursor_after_backspace, cursor_after_left, cursor_after_right, lines_after_backspace,
    lines_after_delete, lines_after_insert, lines_after_join, lines_after_split,
    offset_after_adjust, valid_cursor,
};

verus! {

/// The cursor after a whole sequence of horizontal moves, one step per
/// element: `Key::Left` moves left, anything else moves right.
pub open spec fn cursor_after_lr_moves(
    lines: Seq<Seq<char>>,
    row: int,
    col: int,
    moves: Seq<Key>,
) -> (int, int)
    decreases moves.len(),
{
    if moves.len() == 0 {
        (row, col)
    } else {
        let step = if moves[0] == Key::Left {
            cursor_after_left(lines, row, col)
        } else {
            cursor_after_right(lines, row, col)
        };
        cursor_after_lr_moves(lines, step.0, step.1, moves.skip(1))
    }
}

/// One Left move keeps the cursor valid.
pub proof fn lemma_left_stays_valid(lines: Seq<Seq<char>>, row: int, col: int)
    requires
        valid_cursor(lines, row, col),
    ensures
        valid_cursor(
            lines,
            cursor_after_left(lines, row, col).0,
            cursor_after_left(lines, row, col).1,
        ),
{
}

/// One Right move keeps the cursor valid.
pub proof fn lemma_right_stays_valid(lines: Seq<Seq<char>>, row: int, col: int)
    requires
        valid_cursor(lines, row, col),
    ensures
        valid_cursor(
            lines,
            cursor_after_right(lines, row, col).0,
            cursor_after_right(lines, row, col).1,
        ),
{
}

/// For every sequence of Left and Right moves, the cursor never leaves the
/// valid (row, column) range of the buffer.
pub proof fn lemma_lr_moves_stay_valid(
    lines: Seq<Seq<char>>,
    row: int,
    col: int,
    moves: Seq<Key>,
)
    requires
        valid_cursor(lines, row, col),
    ensures
        valid_cursor(
            lines,
            cursor_after_lr_moves(lines, row, col, moves).0,
            cursor_after_lr_moves(lines, row, col, moves).1,
        ),
    decreases moves.len(),
{
    if moves.len() > 0 {
        let step = if moves[0] == Key::Left {
            cursor_after_left(lines, row, col)
        } else {
            cursor_after_right(lines, row, col)
        };
        if moves[0] == Key::Left {
            lemma_left_stays_valid(lines, row, col);
        } else {
            lemma_right_stays_valid(lines, row, col);
        }
        lemma_lr_moves_stay_valid(lines, step.0, step.1, moves.skip(1));
    }
}

/// Inserting a character at (row, col) and then backspacing at (row, col + 1)
/// restores the original buffer and cursor: insert and backspace are inverse
/// on the same position.
pub proof fn lemma_insert_then_backspace_restores(
    lines: Seq<Seq<char>>,
    row: int,
    col: int,
    c: char,
)
    requires
        valid_cursor(lines, row, col),
    ensures
        lines_after_backspace(lines_after_insert(lines, row, col, c), row, col + 1) == lines,
        cursor_after_backspace(lines_after_insert(lines, row, col, c), row, col + 1) == (row, col),
{
    let l2 = lines_after_insert(lines, row, col, c);
    assert(l2[row] == lines[row].insert(col, c));
    assert(l2[row].remove(col) =~= lines[row]);
    assert(l2.update(row, l2[row].remove(col)) =~~= lines);
}

/// Splitting a line at column `col` and then joining the resulting next line
/// back into it reconstructs the original buffer exactly.
pub proof fn lemma_split_then_join_restores(lines: Seq<Seq<char>>, row: int, col: int)
    requires
        valid_cursor(lines, row, col),
    ensures
        lines_after_join(lines_after_split(lines, row, col), row + 1) == lines,
{
    let l2 = lines_after_split(lines, row, col);
    let joined = lines_after_join(l2, row + 1);
    assert(l2[row] == lines[row].take(col));
    assert(l2[row + 1] == lines[row].skip(col));
    assert(lines[row].take(col) + lines[row].skip(col) =~= lines[row]);
    assert forall|i: int| 0 <= i < lines.len() implies joined[i] == lines[i] by {
        if i < row {
            assert(l2[i] == lines[i]);
        } else if i == row {
            assert(joined[row] == l2[row] + l2[row + 1]);
        } else {
            assert(l2[i + 1] == lines[i]);
        }
    }
    assert(joined =~= lines);
}

/// The viewport recompute always puts the cursor's row inside the window:
/// for any viewport height of at least one text row, after adjusting,
/// `offset <= row < offset + height`.
pub proof fn lemma_adjust_reveals_cursor(offset: int, row: int, height: int)
    requires
        0 <= offset,
        0 <= row,
        1 <= height,
    ensures
        ({
            let o2 = offset_after_adjust(offset, row, height);
            0 <= o2 <= row < o2 + height
        }),
{
}

/// Deleting a line never empties the buffer, and deleting the only line
/// leaves exactly one empty line. Repeated deletion therefore ends, and
/// stays, at a single empty line.
pub proof fn lemma_delete_keeps_buffer_nonempty(lines: Seq<Seq<char>>, row: int)
    requires
        0 <= row < lines.len(),
    ensures
        lines_after_delete(lines, row).len() >= 1,
        lines.len() == 1 ==> lines_after_delete(lines, row) == seq![Seq::<char>::empty()],
{
}

} // verus!
