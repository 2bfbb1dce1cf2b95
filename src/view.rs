//! What every view shares: dirty tracking driven by editor events, and the
//! text helpers that views build their output with.
use vstd::prelude::*;
use vstd::string::StringExecFns;

use crate::state::{EditorEvent, EditorState};

verus! {

/// The events that make a view repaint.
pub open spec fn marks_dirty(event: EditorEvent) -> bool {
    match event {
        EditorEvent::CursorMoved(_, _) | EditorEvent::BufferChanged | EditorEvent::ModeChanged(
            _,
        ) => true,
        _ => false,
    }
}

/// A view that is repainted only while it is dirty.
pub trait ViewState {
    /// Whether the view has changes that are not painted yet.
    spec fn dirty_flag(&self) -> bool;

    /// Take note of an event; events that change what the view shows make
    /// it dirty, others change nothing.
    fn handle_event(&mut self, event: &EditorEvent, state: &EditorState)
        ensures
            final(self).dirty_flag() == (old(self).dirty_flag() || marks_dirty(*event)),
    ;

    fn is_dirty(&self) -> (b: bool)
        ensures
            b == self.dirty_flag(),
    ;

    /// Called right after the view was painted.
    fn mark_clean(&mut self)
        ensures
            !final(self).dirty_flag(),
    ;
}

/// The decimal digit `d`.
pub open spec fn digit(d: nat) -> char {
    seq!['0', '1', '2', '3', '4', '5', '6', '7', '8', '9'][d as int]
}

/// The decimal numeral of `n`, without sign or leading zeros.
pub open spec fn decimal(n: nat) -> Seq<char>
    decreases n,
{
    if n < 10 {
        seq![digit(n)]
    } else {
        decimal(n / 10).push(digit(n % 10))
    }
}

/// Relies on std's `ToString` for `usize`, which goes through `Display`:
/// the decimal numeral, without sign or padding.
#[verifier::external_body]
pub(crate) fn decimal_string(n: usize) -> (s: String)
    ensures
        s@ == decimal(n as nat),
{
    n.to_string()
}

/// `n` spaces.
pub open spec fn spaces(n: int) -> Seq<char> {
    Seq::new(n as nat, |i: int| ' ')
}

/// `t` followed by spaces up to `width` chars, where it is shorter.
pub open spec fn pad_right(t: Seq<char>, width: int) -> Seq<char> {
    if t.len() < width {
        t + spaces(width - t.len())
    } else {
        t
    }
}

/// A string of `n` spaces.
pub fn spaces_string(n: usize) -> (s: String)
    ensures
        s@ == spaces(n as int),
{
    let mut s = String::new();
    let mut k: usize = 0;
    while k < n
        invariant
            k <= n,
            s@ == spaces(k as int),
        decreases n - k,
    {
        proof {
            reveal_strlit(" ");
        }
        s.append(" ");
        assert(s@ =~= spaces(k + 1));
        k = k + 1;
    }
    s
}

/// `t`, followed by spaces up to `width` chars where it is shorter.
pub fn pad_right_string(t: String, width: usize) -> (s: String)
    ensures
        s@ == pad_right(t@, width as int),
{
    let n = t.as_str().unicode_len();
    if n < width {
        let pad = spaces_string(width - n);
        t.concat(pad.as_str())
    } else {
        t
    }
}

} // verus!
