//! The editor state: text buffer, cursor, viewport offset, dirty tracking and
//! the file name, together with every operation that mutates them. Each
//! operation keeps the state well formed and is specified exactly against the
//! model in [`crate::model`].

use vstd::prelude::*;

use crate::model::{
    cursor_after_backspace, cursor_after_down, cursor_after_left, cursor_after_right,
    cursor_after_up, lines_after_backspace, lines_after_delete, lines_after_insert,
    lines_after_split, offset_after_adjust, row_after_delete, valid_cursor, views,
};

verus! {

/// How many decimal digits the number `n` prints with.
pub open spec fn digit_count(n: nat) -> nat
    decreases n,
{
    if n < 10 {
        1
    } else {
        (1 + digit_count(n / 10)) as nat
    }
}

/// Decimal digit count of `n`, used to size the line-number gutter.
fn decimal_digits(n: usize) -> (r: usize)
    ensures
        r as nat == digit_count(n as nat),
        1 <= r,
        r as int <= n + 1,
    decreases n,
{
    if n < 10 {
        1
    } else {
        proof {
            vstd::arithmetic::div_mod::lemma_div_is_strictly_smaller(n as int, 10);
        }
        let d = decimal_digits(n / 10);
        1 + d
    }
}

/// Copy of one line's characters.
fn copy_line(v: &Vec<char>) -> (r: Vec<char>)
    ensures
        r@ == v@,
{
    let mut r: Vec<char> = Vec::new();
    let mut k: usize = 0;
    while k < v.len()
        invariant
            k <= v@.len(),
            r@ == v@.take(k as int),
        decreases v@.len() - k,
    {
        r.push(v[k]);
        k = k + 1;
        proof {
            assert(v@.take(k as int) =~= v@.take(k - 1).push(v@[k - 1]));
        }
    }
    proof {
        assert(v@.take(v@.len() as int) =~= v@);
    }
    r
}

/// In-memory state of one editing session: the buffer content (one `Vec<char>`
/// per line), the target file name, the cursor, the saved/dirty marker and the
/// first visible row of the viewport.
pub struct Editor {
    pub content: Vec<Vec<char>>,
    pub filename: String,
    pub cursor_row: usize,
    pub cursor_col: usize,
    pub saved: bool,
    pub viewport_offset: usize,
}

impl Editor {
    /// The buffer as a sequence of lines of characters.
    pub open spec fn lines(self) -> Seq<Seq<char>> {
        views(self.content@)
    }

    /// Well-formedness: the buffer is never empty, the cursor stays inside
    /// it, and the viewport never starts below the cursor's row.
    pub open spec fn wf(self) -> bool {
        &&& self.content@.len() >= 1
        &&& valid_cursor(self.lines(), self.cursor_row as int, self.cursor_col as int)
        &&& self.viewport_offset <= self.cursor_row
    }

    /// The cursor's row is inside the viewport window of a terminal with
    /// `terminal_rows` rows (one row is reserved for the status bar).
    pub open spec fn cursor_visible(self, terminal_rows: int) -> bool {
        &&& self.viewport_offset <= self.cursor_row
        &&& self.cursor_row < self.viewport_offset + (terminal_rows - 1)
    }

    /// A fresh editor over the given file text: the text is split into lines
    /// at line breaks, an empty text yields a single empty line, the cursor
    /// starts at (0, 0) with nothing scrolled and nothing to save.
    pub fn new(filename: String, text: Vec<char>) -> (r: Editor)
        ensures
            r.lines() == (if crate::text::lines_of(text@).len() == 0 {
                seq![Seq::<char>::empty()]
            } else {
                crate::text::lines_of(text@)
            }),
            r.filename == filename,
            r.cursor_row == 0,
            r.cursor_col == 0,
            r.saved,
            r.viewport_offset == 0,
            r.wf(),
    {
        let mut content = crate::text::split_text(&text);
        if content.len() == 0 {
            content.push(Vec::new());
        }
        Editor {
            content,
            filename,
            cursor_row: 0,
            cursor_col: 0,
            saved: true,
            viewport_offset: 0,
        }
    }

    /// Runtime check of the well-formedness invariant, for callers outside
    /// verified code.
    pub fn is_well_formed(&self) -> (r: bool)
        ensures
            r == self.wf(),
    {
        self.content.len() >= 1 && self.cursor_row < self.content.len() && self.cursor_col
            <= self.content[self.cursor_row].len() && self.viewport_offset <= self.cursor_row
    }

    /// Scroll so that the cursor's row is visible in a terminal of
    /// `terminal_rows` rows, per the viewport rule of the model.
    pub fn adjust_viewport(&mut self, terminal_rows: usize)
        requires
            terminal_rows >= 2,
        ensures
            final(self).viewport_offset as int == offset_after_adjust(
                old(self).viewport_offset as int,
                old(self).cursor_row as int,
                terminal_rows - 1,
            ),
            final(self).cursor_visible(terminal_rows as int),
            final(self).content == old(self).content,
            final(self).filename == old(self).filename,
            final(self).cursor_row == old(self).cursor_row,
            final(self).cursor_col == old(self).cursor_col,
            final(self).saved == old(self).saved,
    {
        let height = terminal_rows - 1;
        if self.cursor_row < self.viewport_offset {
            self.viewport_offset = self.cursor_row;
        } else if self.cursor_row - self.viewport_offset >= height {
            self.viewport_offset = self.cursor_row - height + 1;
        }
    }

    /// A pure cursor move to `target`, followed by the viewport recompute for
    /// a terminal of `terminal_rows` rows; the buffer, file name and saved
    /// marker are untouched.
    pub open spec fn nav_effect(
        pre: Editor,
        post: Editor,
        target: (int, int),
        terminal_rows: int,
    ) -> bool {
        &&& post.lines() == pre.lines()
        &&& (post.cursor_row as int, post.cursor_col as int) == target
        &&& post.viewport_offset as int == offset_after_adjust(
            pre.viewport_offset as int,
            target.0,
            terminal_rows - 1,
        )
        &&& post.filename == pre.filename
        &&& post.saved == pre.saved
    }

    /// Move Left: back one column, or to the end of the previous line, or
    /// stay at (0, 0); then reveal the cursor in the viewport.
    pub fn move_cursor_left(&mut self, terminal_rows: usize)
        requires
            old(self).wf(),
            terminal_rows >= 2,
        ensures
            final(self).wf(),
            Editor::nav_effect(
                *old(self),
                *final(self),
                cursor_after_left(
                    old(self).lines(),
                    old(self).cursor_row as int,
                    old(self).cursor_col as int,
                ),
                terminal_rows as int,
            ),
            final(self).cursor_visible(terminal_rows as int),
    {
        if self.cursor_col > 0 {
            self.cursor_col = self.cursor_col - 1;
        } else if self.cursor_row > 0 {
            self.cursor_row = self.cursor_row - 1;
            self.cursor_col = self.content[self.cursor_row].len();
        }
        self.adjust_viewport(terminal_rows);
    }

    /// Move Right: forward one column, or to the start of the next line, or
    /// stay at the end of the last line; then reveal the cursor.
    pub fn move_cursor_right(&mut self, terminal_rows: usize)
        requires
            old(self).wf(),
            terminal_rows >= 2,
        ensures
            final(self).wf(),
            Editor::nav_effect(
                *old(self),
                *final(self),
                cursor_after_right(
                    old(self).lines(),
                    old(self).cursor_row as int,
                    old(self).cursor_col as int,
                ),
                terminal_rows as int,
            ),
            final(self).cursor_visible(terminal_rows as int),
    {
        if self.cursor_col < self.content[self.cursor_row].len() {
            self.cursor_col = self.cursor_col + 1;
        } else if self.cursor_row < self.content.len() - 1 {
            self.cursor_row = self.cursor_row + 1;
            self.cursor_col = 0;
        }
        self.adjust_viewport(terminal_rows);
    }

    /// Move Up: one row up with the column clamped to the new line's length;
    /// then reveal the cursor.
    pub fn move_cursor_up(&mut self, terminal_rows: usize)
        requires
            old(self).wf(),
            terminal_rows >= 2,
        ensures
            final(self).wf(),
            Editor::nav_effect(
                *old(self),
                *final(self),
                cursor_after_up(
                    old(self).lines(),
                    old(self).cursor_row as int,
                    old(self).cursor_col as int,
                ),
                terminal_rows as int,
            ),
            final(self).cursor_visible(terminal_rows as int),
    {
        if self.cursor_row > 0 {
            self.cursor_row = self.cursor_row - 1;
            let width = self.content[self.cursor_row].len();
            if self.cursor_col > width {
                self.cursor_col = width;
            }
        }
        self.adjust_viewport(terminal_rows);
    }

    /// Move Down: one row down with the column clamped, staying on the last
    /// row; then reveal the cursor.
    pub fn move_cursor_down(&mut self, terminal_rows: usize)
        requires
            old(self).wf(),
            terminal_rows >= 2,
        ensures
            final(self).wf(),
            Editor::nav_effect(
                *old(self),
                *final(self),
                cursor_after_down(
                    old(self).lines(),
                    old(self).cursor_row as int,
                    old(self).cursor_col as int,
                ),
                terminal_rows as int,
            ),
            final(self).cursor_visible(terminal_rows as int),
    {
        if self.cursor_row < self.content.len() - 1 {
            self.cursor_row = self.cursor_row + 1;
            let width = self.content[self.cursor_row].len();
            if self.cursor_col > width {
                self.cursor_col = width;
            }
        }
        self.adjust_viewport(terminal_rows);
    }

    /// Insert `c` at the cursor and advance the cursor one column; no other
    /// part of the state changes.
    pub fn insert_char(&mut self, c: char)
        requires
            old(self).wf(),
        ensures
            final(self).wf(),
            final(self).lines() == lines_after_insert(
                old(self).lines(),
                old(self).cursor_row as int,
                old(self).cursor_col as int,
                c,
            ),
            final(self).cursor_row == old(self).cursor_row,
            final(self).cursor_col == old(self).cursor_col + 1,
            final(self).viewport_offset == old(self).viewport_offset,
            final(self).filename == old(self).filename,
            final(self).saved == old(self).saved,
    {
        let row = self.cursor_row;
        let mut line = self.content.remove(row);
        line.insert(self.cursor_col, c);
        let widened = line.len();
        self.content.insert(row, line);
        proof {
            assert(old(self).cursor_col + 1 <= widened);
        }
        self.cursor_col = self.cursor_col + 1;
        proof {
            assert(self.lines() =~~= lines_after_insert(
                old(self).lines(),
                old(self).cursor_row as int,
                old(self).cursor_col as int,
                c,
            ));
        }
    }

    /// A structural edit: the buffer becomes `lines2` and the cursor moves to
    /// `(row2, col2)`, followed by the viewport recompute; the file name is
    /// untouched.
    pub open spec fn edit_effect(
        pre: Editor,
        post: Editor,
        lines2: Seq<Seq<char>>,
        row2: int,
        col2: int,
        terminal_rows: int,
    ) -> bool {
        &&& post.lines() == lines2
        &&& post.cursor_row as int == row2
        &&& post.cursor_col as int == col2
        &&& post.viewport_offset as int == offset_after_adjust(
            pre.viewport_offset as int,
            row2,
            terminal_rows - 1,
        )
        &&& post.filename == pre.filename
    }

    /// Split the current line at the cursor: the remainder becomes a new line
    /// below, and the cursor moves to the start of it.
    pub fn insert_newline(&mut self, terminal_rows: usize)
        requires
            old(self).wf(),
            terminal_rows >= 2,
        ensures
            final(self).wf(),
            Editor::edit_effect(
                *old(self),
                *final(self),
                lines_after_split(
                    old(self).lines(),
                    old(self).cursor_row as int,
                    old(self).cursor_col as int,
                ),
                old(self).cursor_row + 1,
                0,
                terminal_rows as int,
            ),
            final(self).cursor_visible(terminal_rows as int),
            final(self).saved == old(self).saved,
    {
        let row = self.cursor_row;
        let buffer_len = self.content.len();
        proof {
            assert(row + 1 <= buffer_len);
        }
        let mut line = self.content.remove(row);
        let tail = line.split_off(self.cursor_col);
        self.content.insert(row, line);
        self.content.insert(row + 1, tail);
        self.cursor_row = row + 1;
        self.cursor_col = 0;
        proof {
            assert(self.lines() =~~= lines_after_split(
                old(self).lines(),
                old(self).cursor_row as int,
                old(self).cursor_col as int,
            ));
        }
        self.adjust_viewport(terminal_rows);
    }

    /// Backspace: remove the character before the cursor, or at column 0 join
    /// the current line into the previous one with the cursor at the join
    /// point; at (0, 0) nothing changes but the viewport recompute.
    pub fn backspace(&mut self, terminal_rows: usize)
        requires
            old(self).wf(),
            terminal_rows >= 2,
        ensures
            final(self).wf(),
            Editor::edit_effect(
                *old(self),
                *final(self),
                lines_after_backspace(
                    old(self).lines(),
                    old(self).cursor_row as int,
                    old(self).cursor_col as int,
                ),
                cursor_after_backspace(
                    old(self).lines(),
                    old(self).cursor_row as int,
                    old(self).cursor_col as int,
                ).0,
                cursor_after_backspace(
                    old(self).lines(),
                    old(self).cursor_row as int,
                    old(self).cursor_col as int,
                ).1,
                terminal_rows as int,
            ),
            final(self).cursor_visible(terminal_rows as int),
            final(self).saved == old(self).saved,
    {
        if self.cursor_col > 0 {
            let row = self.cursor_row;
            let mut line = self.content.remove(row);
            line.remove(self.cursor_col - 1);
            self.content.insert(row, line);
            self.cursor_col = self.cursor_col - 1;
            proof {
                assert(self.lines() =~~= lines_after_backspace(
                    old(self).lines(),
                    old(self).cursor_row as int,
                    old(self).cursor_col as int,
                ));
            }
        } else if self.cursor_row > 0 {
            let row = self.cursor_row;
            let mut tail = self.content.remove(row);
            self.cursor_row = row - 1;
            let mut line = self.content.remove(row - 1);
            self.cursor_col = line.len();
            line.append(&mut tail);
            self.content.insert(row - 1, line);
            proof {
                assert(self.lines() =~~= lines_after_backspace(
                    old(self).lines(),
                    old(self).cursor_row as int,
                    old(self).cursor_col as int,
                ));
            }
        }
        self.adjust_viewport(terminal_rows);
    }

    /// Delete the current line outright; deleting the only line leaves one
    /// empty line, the cursor row is clamped to the new last row and the
    /// column returns to 0. Marks the buffer as having unsaved changes.
    pub fn delete_current_line(&mut self, terminal_rows: usize)
        requires
            old(self).wf(),
            terminal_rows >= 2,
        ensures
            final(self).wf(),
            Editor::edit_effect(
                *old(self),
                *final(self),
                lines_after_delete(old(self).lines(), old(self).cursor_row as int),
                row_after_delete(old(self).lines(), old(self).cursor_row as int),
                0,
                terminal_rows as int,
            ),
            final(self).cursor_visible(terminal_rows as int),
            !final(self).saved,
    {
        let row = self.cursor_row;
        let _removed = self.content.remove(row);
        if self.content.len() == 0 {
            self.content.push(Vec::new());
        }
        if self.cursor_row >= self.content.len() {
            self.cursor_row = self.content.len() - 1;
        }
        self.cursor_col = 0;
        self.saved = false;
        proof {
            assert(self.lines() =~~= lines_after_delete(
                old(self).lines(),
                old(self).cursor_row as int,
            ));
        }
        self.adjust_viewport(terminal_rows);
    }

    /// Record that the buffer content now matches the file on disk; called
    /// once a save has succeeded.
    pub fn mark_saved(&mut self)
        requires
            old(self).wf(),
        ensures
            final(self).wf(),
            final(self).saved,
            final(self).lines() == old(self).lines(),
            final(self).filename == old(self).filename,
            final(self).cursor_row == old(self).cursor_row,
            final(self).cursor_col == old(self).cursor_col,
            final(self).viewport_offset == old(self).viewport_offset,
    {
        self.saved = true;
    }

    /// The lines the viewport shows: the window of rows starting at the
    /// scroll offset, at most one terminal row short of the full height
    /// (the last row holds the status bar), cut off at the end of the buffer.
    pub fn visible_lines(&self, terminal_rows: usize) -> (r: Vec<Vec<char>>)
        requires
            self.wf(),
            terminal_rows >= 2,
        ensures
            ({
                let o = self.viewport_offset as int;
                let h = terminal_rows - 1;
                let e = if o + h <= self.lines().len() {
                    o + h
                } else {
                    self.lines().len() as int
                };
                views(r@) == self.lines().subrange(o, e)
            }),
    {
        let height = terminal_rows - 1;
        let end = if self.content.len() - self.viewport_offset < height {
            self.content.len()
        } else {
            self.viewport_offset + height
        };
        let mut r: Vec<Vec<char>> = Vec::new();
        let mut idx = self.viewport_offset;
        while idx < end
            invariant
                self.viewport_offset <= idx <= end <= self.content@.len(),
                r@.len() == idx - self.viewport_offset,
                forall|t: int|
                    0 <= t < r@.len() ==> #[trigger] r@[t]@ == self.content@[self.viewport_offset
                        + t]@,
            decreases end - idx,
        {
            let line = copy_line(&self.content[idx]);
            r.push(line);
            idx = idx + 1;
        }
        proof {
            let o = self.viewport_offset as int;
            let sub = self.lines().subrange(o, end as int);
            assert forall|t: int| 0 <= t < r@.len() implies #[trigger] views(r@)[t] == sub[t] by {
                assert(r@[t]@ == self.content@[o + t]@);
                assert(sub[t] == self.lines()[o + t]);
            }
            assert(views(r@) =~~= sub);
        }
        r
    }

    /// Width of the line-number gutter: the digit count of the number of the
    /// last line.
    pub fn line_number_width(&self) -> (r: usize)
        ensures
            r as nat == digit_count(self.lines().len() as nat),
    {
        decimal_digits(self.content.len())
    }

    /// The terminal row the cursor is drawn on: its buffer row relative to
    /// the scroll offset.
    pub fn screen_cursor_row(&self) -> (r: usize)
        requires
            self.wf(),
        ensures
            r == self.cursor_row - self.viewport_offset,
    {
        self.cursor_row - self.viewport_offset
    }

    /// Serialize the buffer for saving: all lines joined with `\n`, with no
    /// trailing newline beyond what joining implies.
    pub fn to_text(&self) -> (r: Vec<char>)
        ensures
            r@ == crate::text::join_lines(self.lines()),
    {
        let mut out: Vec<char> = Vec::new();
        let mut j: usize = 0;
        while j < self.content.len()
            invariant
                j <= self.content@.len(),
                out@ == crate::text::join_lines(self.lines().take(j as int)),
            decreases self.content@.len() - j,
        {
            if j > 0 {
                out.push('\n');
            }
            let ghost mid = out@;
            let line = &self.content[j];
            let mut k: usize = 0;
            while k < line.len()
                invariant
                    k <= line@.len(),
                    out@ == mid + line@.take(k as int),
                decreases line@.len() - k,
            {
                out.push(line[k]);
                k = k + 1;
                proof {
                    assert(mid + line@.take(k as int) =~= (mid + line@.take(k - 1)).push(
                        line@[k - 1],
                    ));
                }
            }
            proof {
                assert(line@.take(line@.len() as int) =~= line@);
                let l = self.lines();
                let j1 = j as int + 1;
                assert(l.take(j1).len() == j1);
                if j1 == 1 {
                    assert(l.take(1)[0] == l[0]);
                    assert(crate::text::join_lines(l.take(1)) == l[0]);
                    assert(out@ =~= l[0]);
                } else {
                    assert(l.take(j1).drop_last() =~= l.take(j as int));
                    assert(l.take(j1).last() == l[j as int]);
                    assert(crate::text::join_lines(l.take(j1)) == crate::text::join_lines(
                        l.take(j as int),
                    ) + seq!['\n'] + l[j as int]);
                    assert(out@ =~= crate::text::join_lines(l.take(j as int)) + seq!['\n']
                        + l[j as int]);
                }
            }
            j = j + 1;
        }
        proof {
            assert(self.lines().take(self.content@.len() as int) =~= self.lines());
        }
        out
    }
}

} // verus!
