//! The keystroke-driven state machine. A session is in one of two modes:
//! `Editing` (the default) or `ConfirmExit` (entered when quitting with
//! unsaved changes). [`Editor::dispatch`] maps one key event to the buffer,
//! cursor and viewport mutations, the next mode, and the action the session
//! loop must perform.

use vstd::prelude::*;

use crate::editor::Editor;
use crate::model::{
    cursor_after_backspace, cursor_after_down, cursor_after_left, cursor_after_right,
    cursor_after_up, lines_after_backspace, lines_after_delete, lines_after_insert,
    lines_after_split, row_after_delete,
};

verus! {

/// One key event, already decoded from the terminal.
#[derive(Clone, Copy, Debug, PartialEq, Eq, Structural)]
pub enum Key {
    /// A character key; with the control modifier held this may be a command.
    Char(char),
    Enter,
    Backspace,
    Left,
    Right,
    Up,
    Down,
    /// Any key the editor does not react to.
    Other,
}

/// The two states of the session: normal editing, or awaiting the answer to
/// the exit-confirmation prompt.
#[derive(Clone, Copy, Debug, PartialEq, Eq, Structural)]
pub enum Mode {
    Editing,
    ConfirmExit,
}

/// What the session loop must do after dispatching one key.
#[derive(Clone, Copy, Debug, PartialEq, Eq, Structural)]
pub enum Action {
    /// Redraw and wait for the next key.
    Continue,
    /// Persist the buffer to the file, then mark the editor saved.
    Save,
    /// Terminate the session.
    Quit,
}

/// The answer of the exit-confirmation state to one key: `y`/`Y` quits,
/// `n`/`N` returns to editing, anything else keeps waiting. The editor state
/// itself is untouched.
pub open spec fn confirm_step(key: Key) -> (Mode, Action) {
    match key {
        Key::Char(c) => if c == 'y' || c == 'Y' {
            (Mode::ConfirmExit, Action::Quit)
        } else if c == 'n' || c == 'N' {
            (Mode::Editing, Action::Continue)
        } else {
            (Mode::ConfirmExit, Action::Continue)
        },
        _ => (Mode::ConfirmExit, Action::Continue),
    }
}

/// A character key pressed in editing mode inserts itself unless it is one
/// of the three control commands (save, quit, delete line).
pub open spec fn is_command(c: char, ctrl: bool) -> bool {
    ctrl && (c == 's' || c == 'q' || c == 'd')
}

impl Editor {
    /// Character insertion at the cursor: the cursor advances one column,
    /// nothing scrolls, and the buffer now has unsaved changes.
    pub open spec fn insert_effect(pre: Editor, post: Editor, c: char) -> bool {
        &&& post.lines() == lines_after_insert(
            pre.lines(),
            pre.cursor_row as int,
            pre.cursor_col as int,
            c,
        )
        &&& post.cursor_row == pre.cursor_row
        &&& post.cursor_col as int == pre.cursor_col + 1
        &&& post.viewport_offset == pre.viewport_offset
        &&& post.filename == pre.filename
        &&& !post.saved
    }

    /// Dispatch one key event in the given mode. This is the whole transition
    /// relation of the editor's state machine:
    ///
    /// - in `ConfirmExit` the editor is untouched and the result follows
    ///   [`confirm_step`];
    /// - in `Editing`, Ctrl+S requests a save, Ctrl+Q quits or asks for
    ///   confirmation when there are unsaved changes, Ctrl+D deletes the
    ///   current line, any other character inserts itself, Enter splits the
    ///   line, Backspace removes backwards (a no-op at (0, 0) that leaves the
    ///   saved marker alone), the arrow keys navigate, and any other key does
    ///   nothing.
    pub fn dispatch(&mut self, mode: Mode, key: Key, ctrl: bool, terminal_rows: usize) -> (r: (
        Mode,
        Action,
    ))
        requires
            old(self).wf(),
            terminal_rows >= 2,
        ensures
            final(self).wf(),
            mode == Mode::ConfirmExit ==> *final(self) == *old(self) && r == confirm_step(key),
            mode == Mode::Editing ==> match key {
                Key::Char(c) => if ctrl && c == 's' {
                    &&& *final(self) == *old(self)
                    &&& r == (Mode::Editing, Action::Save)
                } else if ctrl && c == 'q' {
                    &&& *final(self) == *old(self)
                    &&& old(self).saved ==> r == (Mode::Editing, Action::Quit)
                    &&& !old(self).saved ==> r == (Mode::ConfirmExit, Action::Continue)
                } else if ctrl && c == 'd' {
                    &&& Editor::edit_effect(
                        *old(self),
                        *final(self),
                        lines_after_delete(old(self).lines(), old(self).cursor_row as int),
                        row_after_delete(old(self).lines(), old(self).cursor_row as int),
                        0,
                        terminal_rows as int,
                    )
                    &&& !final(self).saved
                    &&& final(self).cursor_visible(terminal_rows as int)
                    &&& r == (Mode::Editing, Action::Continue)
                } else {
                    &&& Editor::insert_effect(*old(self), *final(self), c)
                    &&& r == (Mode::Editing, Action::Continue)
                },
                Key::Enter => {
                    &&& Editor::edit_effect(
                        *old(self),
                        *final(self),
                        lines_after_split(
                            old(self).lines(),
                            old(self).cursor_row as int,
                            old(self).cursor_col as int,
                        ),
                        old(self).cursor_row + 1,
                        0,
                        terminal_rows as int,
                    )
                    &&& !final(self).saved
                    &&& final(self).cursor_visible(terminal_rows as int)
                    &&& r == (Mode::Editing, Action::Continue)
                },
                Key::Backspace => {
                    &&& Editor::edit_effect(
                        *old(self),
                        *final(self),
                        lines_after_backspace(
                            old(self).lines(),
                            old(self).cursor_row as int,
                            old(self).cursor_col as int,
                        ),
                        cursor_after_backspace(
                            old(self).lines(),
                            old(self).cursor_row as int,
                            old(self).cursor_col as int,
                        ).0,
                        cursor_after_backspace(
                            old(self).lines(),
                            old(self).cursor_row as int,
                            old(self).cursor_col as int,
                        ).1,
                        terminal_rows as int,
                    )
                    &&& (old(self).cursor_row > 0 || old(self).cursor_col > 0)
                        ==> !final(self).saved
                    &&& (old(self).cursor_row == 0 && old(self).cursor_col == 0)
                        ==> final(self).saved == old(self).saved
                    &&& final(self).cursor_visible(terminal_rows as int)
                    &&& r == (Mode::Editing, Action::Continue)
                },
                Key::Left => {
                    &&& Editor::nav_effect(
                        *old(self),
                        *final(self),
                        cursor_after_left(
                            old(self).lines(),
                            old(self).cursor_row as int,
                            old(self).cursor_col as int,
                        ),
                        terminal_rows as int,
                    )
                    &&& final(self).cursor_visible(terminal_rows as int)
                    &&& r == (Mode::Editing, Action::Continue)
                },
                Key::Right => {
                    &&& Editor::nav_effect(
                        *old(self),
                        *final(self),
                        cursor_after_right(
                            old(self).lines(),
                            old(self).cursor_row as int,
                            old(self).cursor_col as int,
                        ),
                        terminal_rows as int,
                    )
                    &&& final(self).cursor_visible(terminal_rows as int)
                    &&& r == (Mode::Editing, Action::Continue)
                },
                Key::Up => {
                    &&& Editor::nav_effect(
                        *old(self),
                        *final(self),
                        cursor_after_up(
                            old(self).lines(),
                            old(self).cursor_row as int,
                            old(self).cursor_col as int,
                        ),
                        terminal_rows as int,
                    )
                    &&& final(self).cursor_visible(terminal_rows as int)
                    &&& r == (Mode::Editing, Action::Continue)
                },
                Key::Down => {
                    &&& Editor::nav_effect(
                        *old(self),
                        *final(self),
                        cursor_after_down(
                            old(self).lines(),
                            old(self).cursor_row as int,
                            old(self).cursor_col as int,
                        ),
                        terminal_rows as int,
                    )
                    &&& final(self).cursor_visible(terminal_rows as int)
                    &&& r == (Mode::Editing, Action::Continue)
                },
                Key::Other => {
                    &&& *final(self) == *old(self)
                    &&& r == (Mode::Editing, Action::Continue)
                },
            },
    {
        match mode {
            Mode::ConfirmExit => {
                match key {
                    Key::Char(c) => {
                        if c == 'y' || c == 'Y' {
                            (Mode::ConfirmExit, Action::Quit)
                        } else if c == 'n' || c == 'N' {
                            (Mode::Editing, Action::Continue)
                        } else {
                            (Mode::ConfirmExit, Action::Continue)
                        }
                    },
                    _ => (Mode::ConfirmExit, Action::Continue),
                }
            },
            Mode::Editing => {
                match key {
                    Key::Char(c) => {
                        if ctrl && c == 's' {
                            (Mode::Editing, Action::Save)
                        } else if ctrl && c == 'q' {
                            if self.saved {
                                (Mode::Editing, Action::Quit)
                            } else {
                                (Mode::ConfirmExit, Action::Continue)
                            }
                        } else if ctrl && c == 'd' {
                            self.delete_current_line(terminal_rows);
                            (Mode::Editing, Action::Continue)
                        } else {
                            self.insert_char(c);
                            self.saved = false;
                            (Mode::Editing, Action::Continue)
                        }
                    },
                    Key::Enter => {
                        self.insert_newline(terminal_rows);
                        self.saved = false;
                        (Mode::Editing, Action::Continue)
                    },
                    Key::Backspace => {
                        let edits = self.cursor_row > 0 || self.cursor_col > 0;
                        self.backspace(terminal_rows);
                        if edits {
                            self.saved = false;
                        }
                        (Mode::Editing, Action::Continue)
                    },
                    Key::Left => {
                        self.move_cursor_left(terminal_rows);
                        (Mode::Editing, Action::Continue)
                    },
                    Key::Right => {
                        self.move_cursor_right(terminal_rows);
                        (Mode::Editing, Action::Continue)
                    },
                    Key::Up => {
                        self.move_cursor_up(terminal_rows);
                        (Mode::Editing, Action::Continue)
                    },
                    Key::Down => {
                        self.move_cursor_down(terminal_rows);
                        (Mode::Editing, Action::Continue)
                    },
                    Key::Other => (Mode::Editing, Action::Continue),
                }
            },
        }
    }
}

} // verus!
