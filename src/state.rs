//! The editor state: buffer, cursor, selection and mode, and the operations
//! of the Normal/Insert mode machine on it.
use vstd::prelude::*;

use crate::config::Mode;
use crate::cursor::{next_line_start, snap_backward, snap_forward, Cursor, Selection};
use crate::graphemes::{
    boundary_at_or_after, boundary_at_or_before, is_boundary, lemma_next_boundary,
    lemma_prev_boundary, next_boundary, next_word_boundary_of, prev_boundary,
    prev_word_boundary_of, GraphemeOperations,
};
use crate::text::{
    lemma_line_bounds, lemma_line_start_is, line_and_start, line_count, line_end, line_end_of,
    line_len, line_of, line_start, rope_chars, rope_from_str, rope_insert_char, rope_len_chars,
    rope_len_lines, rope_line_to_char, rope_remove,
};

verus! {

/// What happened after a command was applied.
#[derive(Clone, Copy, Debug, PartialEq, Eq, Structural, Hash)]
pub enum EditorEvent {
    /// The cursor moved to this line and column.
    CursorMoved(usize, usize),
    Char(char),
    /// The editor mode changed.
    ModeChanged(Mode),
    /// The text changed.
    BufferChanged,
    /// The terminal size changed.
    ViewportChanged,
}

/// The unit of a cursor movement.
#[derive(Clone, Copy, Debug, PartialEq, Eq, Structural)]
pub enum Granularity {
    Character,
    Word,
    Line,
}

/// Direction of a movement.
#[derive(Clone, Copy, Debug, PartialEq, Eq, Structural, Hash)]
pub enum Direction {
    Forward,
    Backward,
}

/// Line and column of position `pos`, the column counted in chars from the
/// start of the line.
pub open spec fn coords_of(s: Seq<char>, pos: int) -> (int, int) {
    (line_of(s, pos), pos - line_start(s, line_of(s, pos)))
}

/// The position for a line and column: `col` chars into the line (at most
/// the end of the text), moved on to the nearest grapheme boundary.
pub open spec fn pos_at(s: Seq<char>, line: int, col: int) -> int {
    boundary_at_or_after(
        s,
        if line_start(s, line) + col < s.len() {
            line_start(s, line) + col
        } else {
            s.len() as int
        },
    )
}

/// The line a vertical move from `line` goes to: one up or down, held to
/// the first and last lines.
pub open spec fn target_line(s: Seq<char>, direction: Direction, line: int) -> int {
    match direction {
        Direction::Forward => if line + 1 < line_count(s) {
            line + 1
        } else {
            line_count(s) - 1
        },
        Direction::Backward => if line > 0 {
            line - 1
        } else {
            0
        },
    }
}

/// Where a vertical move from `pos` lands: the same column on the target
/// line, clamped to that line's length.
pub open spec fn vertical_target(s: Seq<char>, direction: Direction, pos: int) -> int {
    let line = coords_of(s, pos).0;
    let col = coords_of(s, pos).1;
    let new_line = target_line(s, direction, line);
    let new_col = if line_len(s, new_line) < col {
        line_len(s, new_line)
    } else {
        col
    };
    pos_at(s, new_line, new_col)
}

/// Convert a char index to (line, column).
pub fn coords_at_pos(text: &ropey::Rope, pos: usize) -> (c: (usize, usize))
    requires
        pos <= rope_chars(*text).len(),
    ensures
        c.0 == coords_of(rope_chars(*text), pos as int).0,
        c.1 == coords_of(rope_chars(*text), pos as int).1,
{
    let (line, start) = line_and_start(text, pos);
    (line, pos - start)
}

/// Convert (line, column) to a char index on a grapheme boundary.
pub fn pos_at_coords(text: &ropey::Rope, coords: (usize, usize)) -> (p: usize)
    requires
        coords.0 < line_count(rope_chars(*text)),
    ensures
        p == pos_at(rope_chars(*text), coords.0 as int, coords.1 as int),
        p <= rope_chars(*text).len(),
        is_boundary(rope_chars(*text), p as int),
{
    let (line, col) = coords;
    let len = rope_len_chars(text);
    let start = rope_line_to_char(text, line);
    proof {
        lemma_line_start_is(rope_chars(*text), line as int, start as int);
    }
    let target = if col < len - start {
        start + col
    } else {
        len
    };
    snap_forward(text, target)
}

/// Move one line up or down from `pos`, keeping the column where the target
/// line is long enough and clamping it to the line's length where not.
pub fn move_vertically(text: &ropey::Rope, direction: Direction, pos: usize) -> (p: usize)
    requires
        pos <= rope_chars(*text).len(),
    ensures
        p == vertical_target(rope_chars(*text), direction, pos as int),
        p <= rope_chars(*text).len(),
        is_boundary(rope_chars(*text), p as int),
{
    let ghost s = rope_chars(*text);
    let (line, col) = coords_at_pos(text, pos);
    let n = rope_len_lines(text);
    proof {
        crate::text::lemma_newlines_take_mono(s, pos as int, s.len() as int);
        assert(s.take(s.len() as int) =~= s);
    }
    let new_line = match direction {
        Direction::Forward => if line + 1 < n {
            line + 1
        } else {
            n - 1
        },
        Direction::Backward => if line > 0 {
            line - 1
        } else {
            0
        },
    };
    let start = rope_line_to_char(text, new_line);
    proof {
        lemma_line_start_is(s, new_line as int, start as int);
    }
    let end = line_end_of(text, new_line);
    let new_line_len = end - start;
    let new_col = if new_line_len < col {
        new_line_len
    } else {
        col
    };
    pos_at_coords(text, (new_line, new_col))
}

/// A vertical move onto a line shorter than the current column lands on
/// that line's end (or the nearest grapheme boundary after it): the column
/// is clamped, and the result stays inside the text.
pub proof fn lemma_vertical_clamps(s: Seq<char>, direction: Direction, pos: int)
    requires
        0 <= pos <= s.len(),
    ensures
        ({
            let new_line = target_line(s, direction, coords_of(s, pos).0);
            line_len(s, new_line) < coords_of(s, pos).1 ==> vertical_target(s, direction, pos)
                == boundary_at_or_after(s, line_end(s, new_line))
        }),
        0 <= vertical_target(s, direction, pos) <= s.len(),
{
    crate::text::lemma_newlines_take_mono(s, pos, s.len() as int);
    assert(s.take(s.len() as int) =~= s);
    let line = coords_of(s, pos).0;
    let new_line = target_line(s, direction, line);
    lemma_line_bounds(s, new_line);
    let col = coords_of(s, pos).1;
    let new_col = if line_len(s, new_line) < col {
        line_len(s, new_line)
    } else {
        col
    };
    let p = if line_start(s, new_line) + new_col < s.len() {
        line_start(s, new_line) + new_col
    } else {
        s.len() as int
    };
    lemma_next_boundary(s, p);
}

/// The editor's whole state.
pub struct EditorState {
    pub buffer: ropey::Rope,
    pub cursor: Cursor,
    pub selection: Selection,
    pub mode: Mode,
}

/// Where a movement of `granularity` in `direction` takes a cursor at `i`.
pub open spec fn movement_target(
    s: Seq<char>,
    i: int,
    direction: Direction,
    granularity: Granularity,
) -> int {
    match (direction, granularity) {
        (Direction::Backward, Granularity::Character) => prev_boundary(s, i),
        (Direction::Forward, Granularity::Character) => next_boundary(s, i),
        (Direction::Backward, Granularity::Word) => boundary_at_or_before(
            s,
            prev_word_boundary_of(s, i),
        ),
        (Direction::Forward, Granularity::Word) => boundary_at_or_after(
            s,
            next_word_boundary_of(s, i),
        ),
        (_, Granularity::Line) => vertical_target(s, direction, i),
    }
}

impl EditorState {
    /// The chars of the buffer.
    pub open spec fn text(&self) -> Seq<char> {
        rope_chars(self.buffer)
    }

    /// The cursor sits on a grapheme boundary, and cursor and selection
    /// stay inside the text.
    pub open spec fn wf(&self) -> bool {
        &&& self.cursor.index <= self.text().len()
        &&& is_boundary(self.text(), self.cursor.index as int)
        &&& self.selection.start <= self.text().len()
        &&& self.selection.end <= self.text().len()
    }

    pub open spec fn selection_cleared(&self) -> bool {
        self.selection.start == 0 && self.selection.end == 0
    }

    /// The line of the cursor.
    pub open spec fn cursor_line(&self) -> int {
        line_of(self.text(), self.cursor.index as int)
    }

    /// A fresh editor on `text`, cursor at 0 in Normal mode.
    pub fn from_text(text: &str) -> (st: EditorState)
        ensures
            st.wf(),
            st.text() == text@,
            st.cursor.index == 0,
            st.selection_cleared(),
            st.mode == Mode::Normal,
    {
        EditorState {
            buffer: rope_from_str(text),
            cursor: Cursor::new(),
            selection: Selection::new(),
            mode: Mode::Normal,
        }
    }

    /// A fresh editor holding the welcome line.
    pub fn new() -> (st: EditorState)
        ensures
            st.wf(),
            st.text() == "Welcome to Athena, a modern terminal text-editor"@,
            st.cursor.index == 0,
            st.selection_cleared(),
            st.mode == Mode::Normal,
    {
        Self::from_text("Welcome to Athena, a modern terminal text-editor")
    }

    pub open spec fn append_post(old: EditorState, new: EditorState) -> bool {
        if old.mode == Mode::Normal {
            &&& new.text() == old.text()
            &&& new.cursor.index == next_boundary(old.text(), old.cursor.index as int)
            &&& new.mode == Mode::Insert
            &&& new.selection_cleared()
        } else {
            new == old
        }
    }

    /// Append after the cursor: in Normal mode, step one grapheme forward
    /// and enter Insert mode.
    pub fn append(&mut self)
        requires
            old(self).wf(),
        ensures
            final(self).wf(),
            Self::append_post(*old(self), *final(self)),
    {
        if self.mode == Mode::Normal {
            proof {
                lemma_next_boundary(self.text(), self.cursor.index as int);
            }
            self.cursor.move_next_grapheme(&self.buffer);
            self.selection.clear();
            self.mode = Mode::Insert;
        }
    }

    pub open spec fn insert_start_of_line_post(old: EditorState, new: EditorState) -> bool {
        if old.mode == Mode::Normal {
            &&& new.text() == old.text()
            &&& new.cursor.index == boundary_at_or_after(
                old.text(),
                line_start(old.text(), old.cursor_line()),
            )
            &&& new.mode == Mode::Insert
            &&& new.selection_cleared()
        } else {
            new == old
        }
    }

    /// In Normal mode, go to the start of the current line and enter Insert
    /// mode.
    pub fn insert_start_of_line(&mut self)
        requires
            old(self).wf(),
        ensures
            final(self).wf(),
            Self::insert_start_of_line_post(*old(self), *final(self)),
    {
        if self.mode == Mode::Normal {
            let ghost s = self.text();
            proof {
                crate::text::lemma_newlines_take_mono(s, self.cursor.index as int, s.len() as int);
                assert(s.take(s.len() as int) =~= s);
                lemma_line_bounds(s, self.cursor_line());
                lemma_next_boundary(s, line_start(s, self.cursor_line()));
            }
            self.cursor.move_to_start_of_line(&self.buffer);
            self.selection.clear();
            self.mode = Mode::Insert;
        }
    }

    pub open spec fn append_end_of_line_post(old: EditorState, new: EditorState) -> bool {
        if old.mode == Mode::Normal {
            &&& new.text() == old.text()
            &&& new.cursor.index == boundary_at_or_after(
                old.text(),
                line_end(old.text(), old.cursor_line()),
            )
            &&& new.mode == Mode::Insert
            &&& new.selection_cleared()
        } else {
            new == old
        }
    }

    /// In Normal mode, go to the end of the current line and enter Insert
    /// mode.
    pub fn append_end_of_line(&mut self)
        requires
            old(self).wf(),
        ensures
            final(self).wf(),
            Self::append_end_of_line_post(*old(self), *final(self)),
    {
        if self.mode == Mode::Normal {
            let ghost s = self.text();
            proof {
                crate::text::lemma_newlines_take_mono(s, self.cursor.index as int, s.len() as int);
                assert(s.take(s.len() as int) =~= s);
                lemma_line_bounds(s, self.cursor_line());
                lemma_next_boundary(s, line_end(s, self.cursor_line()));
            }
            self.cursor.move_to_end_of_line(&self.buffer);
            self.selection.clear();
            self.mode = Mode::Insert;
        }
    }

    pub open spec fn insert_newline_below_post(old: EditorState, new: EditorState) -> bool {
        if old.mode == Mode::Normal {
            let e = boundary_at_or_after(old.text(), line_end(old.text(), old.cursor_line()));
            &&& new.text() == old.text().insert(e, '\n')
            &&& new.cursor.index == next_boundary(new.text(), e)
            &&& new.mode == Mode::Insert
            &&& new.selection_cleared()
        } else {
            new == old
        }
    }

    /// In Normal mode, open a new line after the current one: go to the end
    /// of the line, insert a line feed, step past it, and enter Insert mode.
    pub fn insert_newline_below(&mut self)
        requires
            old(self).wf(),
        ensures
            final(self).wf(),
            Self::insert_newline_below_post(*old(self), *final(self)),
    {
        if self.mode == Mode::Normal {
            let ghost s = self.text();
            proof {
                crate::text::lemma_newlines_take_mono(s, self.cursor.index as int, s.len() as int);
                assert(s.take(s.len() as int) =~= s);
                lemma_line_bounds(s, self.cursor_line());
                lemma_next_boundary(s, line_end(s, self.cursor_line()));
            }
            self.cursor.move_to_end_of_line(&self.buffer);
            let e = self.cursor.index;
            rope_insert_char(&mut self.buffer, e, '\n');
            proof {
                lemma_next_boundary(self.text(), e as int);
            }
            self.cursor.index = self.buffer.next_grapheme_boundary(e);
            self.selection.clear();
            self.mode = Mode::Insert;
        }
    }

    pub open spec fn insert_newline_above_post(old: EditorState, new: EditorState) -> bool {
        if old.mode == Mode::Normal {
            let b = boundary_at_or_after(old.text(), line_start(old.text(), old.cursor_line()));
            &&& new.text() == old.text().insert(b, '\n')
            &&& new.cursor.index == next_boundary(new.text(), b)
            &&& new.mode == Mode::Insert
            &&& new.selection_cleared()
        } else {
            new == old
        }
    }

    /// In Normal mode, open a new line before the current one: go to the
    /// start of the line, insert a line feed, step past it, and enter Insert
    /// mode.
    pub fn insert_newline_above(&mut self)
        requires
            old(self).wf(),
        ensures
            final(self).wf(),
            Self::insert_newline_above_post(*old(self), *final(self)),
    {
        if self.mode == Mode::Normal {
            let ghost s = self.text();
            proof {
                crate::text::lemma_newlines_take_mono(s, self.cursor.index as int, s.len() as int);
                assert(s.take(s.len() as int) =~= s);
                lemma_line_bounds(s, self.cursor_line());
                lemma_next_boundary(s, line_start(s, self.cursor_line()));
            }
            self.cursor.move_to_start_of_line(&self.buffer);
            let b = self.cursor.index;
            rope_insert_char(&mut self.buffer, b, '\n');
            proof {
                lemma_next_boundary(self.text(), b as int);
            }
            self.cursor.index = self.buffer.next_grapheme_boundary(b);
            self.selection.clear();
            self.mode = Mode::Insert;
        }
    }

    pub open spec fn backspace_post(old: EditorState, new: EditorState) -> bool {
        if old.mode == Mode::Insert && old.cursor.index > 0 {
            let p = prev_boundary(old.text(), old.cursor.index as int);
            &&& new.text() == old.text().subrange(0, p) + old.text().subrange(
                old.cursor.index as int,
                old.text().len() as int,
            )
            &&& new.cursor.index == boundary_at_or_before(new.text(), p)
            &&& new.mode == old.mode
            &&& new.selection_cleared()
        } else {
            new == old
        }
    }

    /// In Insert mode, delete the grapheme before the cursor; the cursor
    /// goes to where it started.
    pub fn backspace(&mut self)
        requires
            old(self).wf(),
        ensures
            final(self).wf(),
            Self::backspace_post(*old(self), *final(self)),
    {
        if self.mode == Mode::Insert && self.cursor.index > 0 {
            proof {
                lemma_prev_boundary(self.text(), self.cursor.index as int);
            }
            let prev_index = self.buffer.prev_grapheme_boundary(self.cursor.index);
            rope_remove(&mut self.buffer, prev_index, self.cursor.index);
            self.cursor.index = snap_backward(&self.buffer, prev_index);
            self.selection.clear();
        }
    }

    pub open spec fn move_next_line_post(old: EditorState, new: EditorState) -> bool {
        &&& new.text() == old.text()
        &&& new.mode == old.mode
        &&& new.cursor.index == boundary_at_or_after(
            old.text(),
            next_line_start(old.text(), old.cursor.index as int),
        )
        &&& new.selection.start == old.selection.start
        &&& new.selection.end == if old.mode == Mode::Normal {
            new.cursor.index
        } else {
            old.selection.end
        }
    }

    /// Move the cursor to the start of the next line; in Normal mode the
    /// selection's end follows it.
    pub fn move_next_line(&mut self)
        requires
            old(self).wf(),
        ensures
            final(self).wf(),
            Self::move_next_line_post(*old(self), *final(self)),
    {
        let ghost s = self.text();
        proof {
            crate::text::lemma_newlines_take_mono(s, self.cursor.index as int, s.len() as int);
            assert(s.take(s.len() as int) =~= s);
            lemma_line_bounds(s, self.cursor_line());
            if self.cursor_line() + 1 < line_count(s) {
                lemma_line_bounds(s, self.cursor_line() + 1);
            }
            lemma_next_boundary(s, next_line_start(s, self.cursor.index as int));
        }
        self.cursor.move_next_line(&self.buffer);
        if self.mode == Mode::Normal {
            self.update_selection();
        }
    }

    pub open spec fn update_selection_post(old: EditorState, new: EditorState) -> bool {
        if old.mode == Mode::Normal {
            &&& new.text() == old.text()
            &&& new.mode == old.mode
            &&& new.cursor == old.cursor
            &&& new.selection.start == old.selection.start
            &&& new.selection.end == old.cursor.index
        } else {
            new == old
        }
    }

    /// In Normal mode, move the selection's end to the cursor.
    pub fn update_selection(&mut self)
        requires
            old(self).wf(),
        ensures
            final(self).wf(),
            Self::update_selection_post(*old(self), *final(self)),
    {
        if self.mode == Mode::Normal {
            self.selection.end = self.cursor.index;
        }
    }

    pub open spec fn delete_selection_post(old: EditorState, new: EditorState) -> bool {
        if old.mode == Mode::Normal && old.selection.start != old.selection.end {
            let a = if old.selection.start < old.selection.end {
                old.selection.start
            } else {
                old.selection.end
            };
            let b = if old.selection.start < old.selection.end {
                old.selection.end
            } else {
                old.selection.start
            };
            &&& new.text() == old.text().subrange(0, a as int) + old.text().subrange(
                b as int,
                old.text().len() as int,
            )
            &&& new.cursor.index == boundary_at_or_before(new.text(), a as int)
            &&& new.mode == old.mode
            &&& new.selection_cleared()
        } else {
            new == old
        }
    }

    /// In Normal mode, delete the selected text; the cursor goes to where it
    /// started and the selection is cleared.
    pub fn delete_selection(&mut self)
        requires
            old(self).wf(),
        ensures
            final(self).wf(),
            Self::delete_selection_post(*old(self), *final(self)),
    {
        if self.mode == Mode::Normal && self.selection.is_active() {
            let start = if self.selection.start < self.selection.end {
                self.selection.start
            } else {
                self.selection.end
            };
            let end = if self.selection.start < self.selection.end {
                self.selection.end
            } else {
                self.selection.start
            };
            rope_remove(&mut self.buffer, start, end);
            self.cursor.index = snap_backward(&self.buffer, start);
            self.selection.clear();
        }
    }

    pub open spec fn insert_char_post(old: EditorState, new: EditorState, c: char) -> bool {
        if old.mode == Mode::Insert {
            &&& new.text() == old.text().insert(old.cursor.index as int, c)
            &&& new.cursor.index == next_boundary(new.text(), old.cursor.index as int)
            &&& new.mode == old.mode
            &&& new.selection == old.selection
        } else {
            new == old
        }
    }

    /// In Insert mode, insert `c` at the cursor and step past it.
    pub fn insert_char(&mut self, c: char)
        requires
            old(self).wf(),
        ensures
            final(self).wf(),
            Self::insert_char_post(*old(self), *final(self), c),
    {
        if self.mode == Mode::Insert {
            let at = self.cursor.index;
            rope_insert_char(&mut self.buffer, at, c);
            proof {
                lemma_next_boundary(self.text(), at as int);
            }
            self.cursor.move_next_grapheme(&self.buffer);
        }
    }

    /// In Insert mode, insert a line feed at the cursor and step past it.
    pub fn insert_newline(&mut self)
        requires
            old(self).wf(),
        ensures
            final(self).wf(),
            Self::insert_char_post(*old(self), *final(self), '\n'),
    {
        if self.mode == Mode::Insert {
            let at = self.cursor.index;
            rope_insert_char(&mut self.buffer, at, '\n');
            proof {
                lemma_next_boundary(self.text(), at as int);
            }
            self.cursor.index = self.buffer.next_grapheme_boundary(at);
        }
    }

    pub open spec fn move_cursor_post(
        old: EditorState,
        new: EditorState,
        direction: Direction,
        granularity: Granularity,
    ) -> bool {
        &&& new.text() == old.text()
        &&& new.mode == old.mode
        &&& new.selection == old.selection
        &&& new.cursor.index == movement_target(
            old.text(),
            old.cursor.index as int,
            direction,
            granularity,
        )
    }

    /// Move the cursor, in either mode.
    pub fn move_cursor(&mut self, direction: Direction, granularity: Granularity)
        requires
            old(self).wf(),
        ensures
            final(self).wf(),
            Self::move_cursor_post(*old(self), *final(self), direction, granularity),
    {
        let ghost s = self.text();
        let ghost i = self.cursor.index as int;
        proof {
            lemma_next_boundary(s, i);
            lemma_prev_boundary(s, i);
            lemma_next_boundary(s, next_word_boundary_of(s, i));
            lemma_prev_boundary(s, prev_word_boundary_of(s, i));
        }
        match (direction, granularity) {
            (Direction::Backward, Granularity::Character) => {
                self.cursor.move_prev_grapheme(&self.buffer)
            },
            (Direction::Forward, Granularity::Character) => {
                self.cursor.move_next_grapheme(&self.buffer)
            },
            (Direction::Backward, Granularity::Word) => {
                self.cursor.move_prev_word(&self.buffer)
            },
            (Direction::Forward, Granularity::Word) => {
                self.cursor.move_next_word(&self.buffer)
            },
            (_, Granularity::Line) => {
                self.cursor.index = move_vertically(&self.buffer, direction, self.cursor.index);
            },
        }
    }

    pub open spec fn update_mode_post(old: EditorState, new: EditorState, mode: Mode) -> bool {
        if mode == old.mode {
            new == old
        } else if mode == Mode::Normal {
            &&& new.text() == old.text()
            &&& new.cursor.index == prev_boundary(old.text(), old.cursor.index as int)
            &&& new.mode == Mode::Normal
            &&& new.selection_cleared()
        } else {
            &&& new.text() == old.text()
            &&& new.cursor == old.cursor
            &&& new.mode == mode
            &&& new.selection_cleared()
        }
    }

    /// Switch to `mode`; leaving Insert mode steps the cursor back one
    /// grapheme. Asking for the current mode changes nothing.
    pub fn update_mode(&mut self, mode: Mode)
        requires
            old(self).wf(),
        ensures
            final(self).wf(),
            Self::update_mode_post(*old(self), *final(self), mode),
    {
        if mode == self.mode {
            return ;
        }
        if mode == Mode::Normal {
            proof {
                lemma_prev_boundary(self.text(), self.cursor.index as int);
            }
            self.cursor.move_prev_grapheme(&self.buffer);
        }
        self.selection.clear();
        self.mode = mode;
    }
}

} // verus!
