//! The cursor and the selection.
//!
//! Every move leaves the cursor on a grapheme boundary: where a line or word
//! position is not one, the cursor goes on to the nearest boundary.
use vstd::prelude::*;

use crate::graphemes::{
    lemma_next_then_prev, boundary_at_or_after, boundary_at_or_before, is_boundary, lemma_next_boundary,
    lemma_prev_boundary, next_boundary, next_word_boundary_of, prev_boundary,
    prev_word_boundary_of, GraphemeOperations,
};
use crate::text::{
    lemma_line_start_is, lemma_newlines_take_mono, line_and_start, line_count, line_end,
    line_end_of, line_of, line_start, rope_char_to_line, rope_chars, rope_len_chars,
    rope_len_lines, rope_line_to_char,
};

verus! {

/// `p` itself where it is a grapheme boundary, else the next one.
pub fn snap_forward(r: &ropey::Rope, p: usize) -> (q: usize)
    ensures
        q == boundary_at_or_after(rope_chars(*r), p as int),
        is_boundary(rope_chars(*r), q as int),
        p <= rope_chars(*r).len() ==> p <= q <= rope_chars(*r).len(),
{
    proof {
        lemma_next_boundary(rope_chars(*r), p as int);
    }
    if r.is_grapheme_boundary(p) {
        p
    } else {
        r.next_grapheme_boundary(p)
    }
}

/// `p` itself where it is a grapheme boundary, else the previous one.
pub fn snap_backward(r: &ropey::Rope, p: usize) -> (q: usize)
    ensures
        q == boundary_at_or_before(rope_chars(*r), p as int),
        is_boundary(rope_chars(*r), q as int),
        q <= p,
        q <= rope_chars(*r).len(),
{
    proof {
        lemma_prev_boundary(rope_chars(*r), p as int);
    }
    if r.is_grapheme_boundary(p) {
        p
    } else {
        r.prev_grapheme_boundary(p)
    }
}

/// The single edit point, as a char index into the buffer.
#[derive(Clone, Copy, Debug)]
pub struct Cursor {
    pub index: usize,
}

/// Start of the line before the one holding `i`; 0 on the first line.
pub open spec fn prev_line_start(s: Seq<char>, i: int) -> int {
    if line_of(s, i) > 0 {
        line_start(s, line_of(s, i) - 1)
    } else {
        0
    }
}

/// Start of the line after the one holding `i`; the end of the text on the
/// last line.
pub open spec fn next_line_start(s: Seq<char>, i: int) -> int {
    line_start(s, line_of(s, i) + 1)
}

impl Cursor {
    pub fn new() -> (c: Cursor)
        ensures
            c.index == 0,
    {
        Cursor { index: 0 }
    }

    /// Move to the previous grapheme boundary.
    pub fn move_prev_grapheme(&mut self, buffer: &ropey::Rope)
        ensures
            final(self).index == prev_boundary(rope_chars(*buffer), old(self).index as int),
    {
        self.index = buffer.prev_grapheme_boundary(self.index);
    }

    /// Move to the previous word boundary.
    pub fn move_prev_word(&mut self, buffer: &ropey::Rope)
        ensures
            final(self).index == boundary_at_or_before(
                rope_chars(*buffer),
                prev_word_boundary_of(rope_chars(*buffer), old(self).index as int),
            ),
    {
        let w = buffer.prev_word_boundary(self.index);
        self.index = snap_backward(buffer, w);
    }

    /// Move to the start of the previous line, or to 0 on the first line.
    pub fn move_prev_line(&mut self, buffer: &ropey::Rope)
        requires
            old(self).index <= rope_chars(*buffer).len(),
        ensures
            final(self).index == boundary_at_or_after(
                rope_chars(*buffer),
                prev_line_start(rope_chars(*buffer), old(self).index as int),
            ),
    {
        let ghost s = rope_chars(*buffer);
        let line = rope_char_to_line(buffer, self.index);
        proof {
            lemma_newlines_take_mono(s, self.index as int, s.len() as int);
            assert(s.take(s.len() as int) =~= s);
        }
        let target = if line > 0 {
            let p = rope_line_to_char(buffer, line - 1);
            proof {
                lemma_line_start_is(s, line - 1, p as int);
            }
            p
        } else {
            0
        };
        self.index = snap_forward(buffer, target);
    }

    /// Move to the next grapheme boundary.
    pub fn move_next_grapheme(&mut self, buffer: &ropey::Rope)
        ensures
            final(self).index == next_boundary(rope_chars(*buffer), old(self).index as int),
    {
        self.index = buffer.next_grapheme_boundary(self.index);
    }

    /// Move to the next word boundary.
    pub fn move_next_word(&mut self, buffer: &ropey::Rope)
        ensures
            final(self).index == boundary_at_or_after(
                rope_chars(*buffer),
                next_word_boundary_of(rope_chars(*buffer), old(self).index as int),
            ),
    {
        let w = buffer.next_word_boundary(self.index);
        self.index = snap_forward(buffer, w);
    }

    /// Move to the start of the next line, or to the end of the text on the
    /// last line.
    pub fn move_next_line(&mut self, rope: &ropey::Rope)
        requires
            old(self).index <= rope_chars(*rope).len(),
        ensures
            final(self).index == boundary_at_or_after(
                rope_chars(*rope),
                next_line_start(rope_chars(*rope), old(self).index as int),
            ),
    {
        let ghost s = rope_chars(*rope);
        let line = rope_char_to_line(rope, self.index);
        proof {
            lemma_newlines_take_mono(s, self.index as int, s.len() as int);
            assert(s.take(s.len() as int) =~= s);
        }
        let n = rope_len_lines(rope);
        let target = if line + 1 < n {
            let p = rope_line_to_char(rope, line + 1);
            proof {
                lemma_line_start_is(s, line + 1, p as int);
            }
            p
        } else {
            rope_len_chars(rope)
        };
        self.index = snap_forward(rope, target);
    }

    /// Move to the end of the current line, before its line feed.
    pub fn move_to_end_of_line(&mut self, rope: &ropey::Rope)
        requires
            old(self).index <= rope_chars(*rope).len(),
        ensures
            final(self).index == boundary_at_or_after(
                rope_chars(*rope),
                line_end(rope_chars(*rope), line_of(rope_chars(*rope), old(self).index as int)),
            ),
    {
        let (line, _) = line_and_start(rope, self.index);
        let end = line_end_of(rope, line);
        self.index = snap_forward(rope, end);
    }

    /// Move to the start of the current line.
    pub fn move_to_start_of_line(&mut self, rope: &ropey::Rope)
        requires
            old(self).index <= rope_chars(*rope).len(),
        ensures
            final(self).index == boundary_at_or_after(
                rope_chars(*rope),
                line_start(rope_chars(*rope), line_of(rope_chars(*rope), old(self).index as int)),
            ),
    {
        let (_, start) = line_and_start(rope, self.index);
        self.index = snap_forward(rope, start);
    }
}

/// The unit that `Selection::select_scope` selects.
#[derive(Clone, Copy, Debug, PartialEq, Eq, Structural, Hash)]
pub enum SelectionScope {
    Grapheme,
    Word,
    Line,
}

/// A range of char indices; empty (`start == end`) when inactive.
#[derive(Clone, Copy, Debug)]
pub struct Selection {
    pub start: usize,
    pub end: usize,
}

impl Selection {
    pub fn new() -> (s: Selection)
        ensures
            s.start == 0,
            s.end == 0,
    {
        Selection { start: 0, end: 0 }
    }

    /// Whether the selection covers anything.
    pub fn is_active(&self) -> (b: bool)
        ensures
            b == (self.start != self.end),
    {
        self.start != self.end
    }

    /// Make the selection inactive.
    pub fn clear(&mut self)
        ensures
            final(self).start == 0,
            final(self).end == 0,
    {
        self.start = 0;
        self.end = 0;
    }

    /// Set both ends.
    pub fn set(&mut self, start: usize, end: usize)
        ensures
            final(self).start == start,
            final(self).end == end,
    {
        self.start = start;
        self.end = end;
    }

    /// Select from the word boundary before the cursor up to the cursor.
    pub fn select_to_prev_word(&mut self, cursor: &Cursor, buffer: &ropey::Rope)
        ensures
            final(self).start == prev_word_boundary_of(rope_chars(*buffer), cursor.index as int),
            final(self).end == cursor.index,
    {
        let start = buffer.prev_word_boundary(cursor.index);
        self.set(start, cursor.index);
    }

    /// Select from the cursor up to the word boundary after it.
    pub fn select_to_next_word(&mut self, cursor: &Cursor, buffer: &ropey::Rope)
        ensures
            final(self).start == cursor.index,
            final(self).end == next_word_boundary_of(rope_chars(*buffer), cursor.index as int),
    {
        let end = buffer.next_word_boundary(cursor.index);
        self.set(cursor.index, end);
    }

    /// Select from the cursor up to the start of the next line, or the end
    /// of the text on the last line.
    pub fn select_to_end_of_line(&mut self, cursor: &Cursor, rope: &ropey::Rope)
        requires
            cursor.index <= rope_chars(*rope).len(),
        ensures
            final(self).start == cursor.index,
            final(self).end == next_line_start(rope_chars(*rope), cursor.index as int),
            cursor.index <= final(self).end <= rope_chars(*rope).len(),
    {
        let ghost s = rope_chars(*rope);
        let line = rope_char_to_line(rope, cursor.index);
        proof {
            lemma_newlines_take_mono(s, cursor.index as int, s.len() as int);
            assert(s.take(s.len() as int) =~= s);
        }
        let n = rope_len_lines(rope);
        let end = if line + 1 < n {
            rope_line_to_char(rope, line + 1)
        } else {
            rope_len_chars(rope)
        };
        proof {
            if line + 1 < line_count(s) {
                lemma_line_start_is(s, line + 1, end as int);
                if end <= cursor.index {
                    lemma_newlines_take_mono(s, end as int, cursor.index as int);
                }
            }
        }
        self.set(cursor.index, end);
    }

    /// Widen the selection to whole grapheme clusters: the start moves back
    /// and the end forward to the nearest boundary where they split one.
    pub fn ensure_grapheme_boundaries(&mut self, buffer: &ropey::Rope)
        ensures
            final(self).start == boundary_at_or_before(rope_chars(*buffer), old(self).start as int),
            final(self).end == boundary_at_or_after(rope_chars(*buffer), old(self).end as int),
    {
        self.start = snap_backward(buffer, self.start);
        self.end = snap_forward(buffer, self.end);
    }

    /// Select one unit (a cluster, a word, or the rest of the line) starting
    /// at the cursor, widened to grapheme boundaries.
    pub fn select_scope(&mut self, cursor: &Cursor, scope: &SelectionScope, rope: &ropey::Rope)
        requires
            cursor.index <= rope_chars(*rope).len(),
        ensures
            final(self).start == boundary_at_or_before(rope_chars(*rope), cursor.index as int),
            final(self).end == boundary_at_or_after(
                rope_chars(*rope),
                scope_end(rope_chars(*rope), cursor.index as int, *scope),
            ),
            is_boundary(rope_chars(*rope), final(self).start as int),
            is_boundary(rope_chars(*rope), final(self).end as int),
            final(self).start <= final(self).end,
    {
        let ghost s = rope_chars(*rope);
        proof {
            lemma_next_boundary(s, cursor.index as int);
        }
        match scope {
            SelectionScope::Grapheme => {
                let end = rope.next_grapheme_boundary(cursor.index);
                self.set(cursor.index, end);
            },
            SelectionScope::Word => {
                let end = rope.next_word_boundary(cursor.index);
                self.set(cursor.index, end);
            },
            SelectionScope::Line => self.select_to_end_of_line(cursor, rope),
        }
        let ghost e = self.end as int;
        assert(self.start == cursor.index);
        assert(cursor.index <= e <= s.len());
        self.ensure_grapheme_boundaries(rope);
        proof {
            lemma_prev_boundary(s, cursor.index as int);
            lemma_next_boundary(s, e);
        }
    }
}

/// Where the unit that `scope` names ends, for a selection starting at `i`.
pub open spec fn scope_end(s: Seq<char>, i: int, scope: SelectionScope) -> int {
    match scope {
        SelectionScope::Grapheme => next_boundary(s, i),
        SelectionScope::Word => next_word_boundary_of(s, i),
        SelectionScope::Line => next_line_start(s, i),
    }
}

/// Moving a cursor that sits on an inner grapheme boundary forward one
/// grapheme and then back one brings it back to where it was.
pub proof fn lemma_forward_then_back(s: Seq<char>, i: int)
    requires
        0 < i < s.len(),
        is_boundary(s, i),
    ensures
        prev_boundary(s, next_boundary(s, i)) == i,
{
    lemma_next_then_prev(s, i);
}

} // verus!
