//! The text buffer: a `ropey::Rope` seen as a sequence of chars, with lines
//! separated by `'\n'`.
use vstd::prelude::*;

verus! {

#[verifier::external_type_specification]
#[verifier::external_body]
pub struct ExRope(ropey::Rope);

/// The chars that a rope holds, in order.
pub uninterp spec fn rope_chars(r: ropey::Rope) -> Seq<char>;

/// Number of line feeds in `s`.
pub open spec fn newlines(s: Seq<char>) -> nat
    decreases s.len(),
{
    if s.len() == 0 {
        0
    } else {
        newlines(s.drop_last()) + if s.last() == '\n' {
            1nat
        } else {
            0nat
        }
    }
}

/// Number of lines of `s`: one more than the number of line feeds.
pub open spec fn line_count(s: Seq<char>) -> nat {
    newlines(s) + 1
}

/// The line that holds position `i`: the number of line feeds before it.
pub open spec fn line_of(s: Seq<char>, i: int) -> int {
    newlines(s.take(i)) as int
}

/// `p` is where line `l` starts: `l` line feeds precede it, and it is 0 or
/// follows a line feed.
pub open spec fn starts_line(s: Seq<char>, l: int, p: int) -> bool {
    &&& 0 <= p <= s.len()
    &&& newlines(s.take(p)) == l
    &&& (p == 0 || s[p - 1] == '\n')
}

/// The first position of line `l`; one past the last line, the end of `s`.
pub open spec fn line_start(s: Seq<char>, l: int) -> int {
    if l >= line_count(s) {
        s.len() as int
    } else {
        choose|p: int| starts_line(s, l, p)
    }
}

/// The position just past the last char of line `l` that is not its line feed.
pub open spec fn line_end(s: Seq<char>, l: int) -> int {
    if l + 1 < line_count(s) {
        line_start(s, l + 1) - 1
    } else {
        s.len() as int
    }
}

/// Number of chars of line `l`, its line feed left out.
pub open spec fn line_len(s: Seq<char>, l: int) -> int {
    line_end(s, l) - line_start(s, l)
}

pub proof fn lemma_newlines_take_step(s: Seq<char>, k: int)
    requires
        0 <= k < s.len(),
    ensures
        newlines(s.take(k + 1)) == newlines(s.take(k)) + if s[k] == '\n' {
            1nat
        } else {
            0nat
        },
{
    assert(s.take(k + 1).drop_last() =~= s.take(k));
}

pub proof fn lemma_newlines_take_mono(s: Seq<char>, a: int, b: int)
    requires
        0 <= a <= b <= s.len(),
    ensures
        newlines(s.take(a)) <= newlines(s.take(b)),
    decreases b - a,
{
    if a < b {
        lemma_newlines_take_step(s, b - 1);
        lemma_newlines_take_mono(s, a, b - 1);
    }
}

/// A line starts no later than any position that has as many line feeds before it.
pub proof fn lemma_line_start_before(s: Seq<char>, l: int, p: int, q: int)
    requires
        starts_line(s, l, p),
        0 <= q <= s.len(),
        newlines(s.take(q)) == l,
    ensures
        p <= q,
{
    if p > q {
        lemma_newlines_take_step(s, p - 1);
        lemma_newlines_take_mono(s, q, p - 1);
    }
}

/// Each line has one start.
pub proof fn lemma_starts_line_unique(s: Seq<char>, l: int, p: int, q: int)
    requires
        starts_line(s, l, p),
        starts_line(s, l, q),
    ensures
        p == q,
{
    lemma_line_start_before(s, l, p, q);
    lemma_line_start_before(s, l, q, p);
}

/// What the rope reports as the start of line `l` is `line_start(s, l)`.
pub proof fn lemma_line_start_is(s: Seq<char>, l: int, p: int)
    requires
        0 <= l < line_count(s),
        starts_line(s, l, p),
    ensures
        line_start(s, l) == p,
{
    let q = line_start(s, l);
    assert(starts_line(s, l, q));
    lemma_starts_line_unique(s, l, p, q);
}

/// Every line of `s` has a start.
pub proof fn lemma_line_start_exists(s: Seq<char>, l: int)
    requires
        0 <= l < line_count(s),
    ensures
        starts_line(s, l, line_start(s, l)),
    decreases s.len(),
{
    if s.len() == 0 {
        assert(starts_line(s, 0, 0));
    } else {
        let t = s.drop_last();
        if l < line_count(t) {
            lemma_line_start_exists(t, l);
            let p = line_start(t, l);
            assert(s.take(p) =~= t.take(p));
            assert(starts_line(s, l, p));
        } else {
            assert(s.take(s.len() as int) =~= s);
            assert(starts_line(s, l, s.len() as int));
        }
    }
}

/// Lines start in order, within the text, and each line ends no earlier
/// than it starts.
pub proof fn lemma_line_bounds(s: Seq<char>, l: int)
    requires
        0 <= l < line_count(s),
    ensures
        0 <= line_start(s, l) <= line_end(s, l) <= s.len(),
{
    lemma_line_start_exists(s, l);
    if l + 1 < line_count(s) {
        lemma_line_start_exists(s, l + 1);
        let p = line_start(s, l);
        let q = line_start(s, l + 1);
        if q <= p {
            lemma_newlines_take_mono(s, q, p);
        }
    }
}

/// Relies on `Rope::from_str`: the rope holds the chars of `text`.
#[verifier::external_body]
pub(crate) fn rope_from_str(text: &str) -> (r: ropey::Rope)
    ensures
        rope_chars(r) == text@,
{
    ropey::Rope::from_str(text)
}

/// Relies on `Rope::len_chars`: the number of chars.
#[verifier::external_body]
pub(crate) fn rope_len_chars(r: &ropey::Rope) -> (n: usize)
    ensures
        n == rope_chars(*r).len(),
{
    r.len_chars()
}

/// Relies on `Rope::len_lines`: one more than the number of line breaks,
/// which without ropey's default features are the line feeds alone.
#[verifier::external_body]
pub(crate) fn rope_len_lines(r: &ropey::Rope) -> (n: usize)
    ensures
        n == line_count(rope_chars(*r)),
{
    r.len_lines()
}

/// Relies on `Rope::char_to_line`: the number of line breaks before `char_idx`.
#[verifier::external_body]
pub(crate) fn rope_char_to_line(r: &ropey::Rope, char_idx: usize) -> (l: usize)
    requires
        char_idx <= rope_chars(*r).len(),
    ensures
        l == line_of(rope_chars(*r), char_idx as int),
{
    r.char_to_line(char_idx)
}

/// Relies on `Rope::line_to_char`: the char index where line `line_idx`
/// starts, and the length of the rope for one past the last line.
#[verifier::external_body]
pub(crate) fn rope_line_to_char(r: &ropey::Rope, line_idx: usize) -> (p: usize)
    requires
        line_idx <= line_count(rope_chars(*r)),
    ensures
        line_idx < line_count(rope_chars(*r)) ==> starts_line(
            rope_chars(*r),
            line_idx as int,
            p as int,
        ),
        line_idx == line_count(rope_chars(*r)) ==> p == rope_chars(*r).len(),
{
    r.line_to_char(line_idx)
}

/// Relies on `Rope::insert_char`: `ch` is inserted at `char_idx`.
#[verifier::external_body]
pub(crate) fn rope_insert_char(r: &mut ropey::Rope, char_idx: usize, ch: char)
    requires
        char_idx <= rope_chars(*old(r)).len(),
    ensures
        rope_chars(*final(r)) == rope_chars(*old(r)).insert(char_idx as int, ch),
{
    r.insert_char(char_idx, ch)
}

/// Relies on `Rope::remove`: the chars in `start..end` are taken out.
#[verifier::external_body]
pub(crate) fn rope_remove(r: &mut ropey::Rope, start: usize, end: usize)
    requires
        start <= end <= rope_chars(*old(r)).len(),
    ensures
        rope_chars(*final(r)) == rope_chars(*old(r)).subrange(0, start as int) + rope_chars(
            *old(r),
        ).subrange(end as int, rope_chars(*old(r)).len() as int),
{
    r.remove(start..end)
}

/// Relies on `Rope::slice` and ropey's `From<RopeSlice> for String`: the
/// chars in `start..end`, joined across the rope's chunks.
#[verifier::external_body]
pub(crate) fn rope_slice_string(r: &ropey::Rope, start: usize, end: usize) -> (s: String)
    requires
        start <= end <= rope_chars(*r).len(),
    ensures
        s@ == rope_chars(*r).subrange(start as int, end as int),
{
    String::from(r.slice(start..end))
}

/// The line that holds `pos` and the start of that line.
pub fn line_and_start(r: &ropey::Rope, pos: usize) -> (res: (usize, usize))
    requires
        pos <= rope_chars(*r).len(),
    ensures
        res.0 == line_of(rope_chars(*r), pos as int),
        res.1 == line_start(rope_chars(*r), res.0 as int),
        res.0 < line_count(rope_chars(*r)),
        res.1 <= pos,
{
    let ghost s = rope_chars(*r);
    let line = rope_char_to_line(r, pos);
    proof {
        lemma_newlines_take_mono(s, pos as int, s.len() as int);
        assert(s.take(s.len() as int) =~= s);
    }
    let start = rope_line_to_char(r, line);
    proof {
        lemma_line_start_is(s, line as int, start as int);
        lemma_line_start_before(s, line as int, start as int, pos as int);
    }
    (line, start)
}

/// Where line `line` ends, its line feed left out.
pub fn line_end_of(r: &ropey::Rope, line: usize) -> (e: usize)
    requires
        line < line_count(rope_chars(*r)),
    ensures
        e == line_end(rope_chars(*r), line as int),
        line_start(rope_chars(*r), line as int) <= e <= rope_chars(*r).len(),
{
    let ghost s = rope_chars(*r);
    let n = rope_len_lines(r);
    let start = rope_line_to_char(r, line);
    proof {
        lemma_line_start_is(s, line as int, start as int);
    }
    if line + 1 < n {
        let next = rope_line_to_char(r, line + 1);
        proof {
            lemma_line_start_is(s, line + 1, next as int);
            // the next line's start has one more line feed before it
            if next <= start {
                lemma_newlines_take_mono(s, next as int, start as int);
            }
        }
        next - 1
    } else {
        rope_len_chars(r)
    }
}

} // verus!
