//! Grapheme-cluster and word boundaries over the text buffer.
//!
//! Segmentation runs on a bounded window of the buffer around each query,
//! read across the rope's chunks. Whether position `i` is a grapheme
//! boundary is decided on the window of `CONTEXT` chars on either side of
//! `i`; the previous and next boundaries are the nearest positions for which
//! that holds, so the three queries always agree with one another.
use vstd::prelude::*;

use crate::text::{rope_chars, rope_len_chars, rope_slice_string};

verus! {

/// How many chars of context on each side of a position segmentation sees.
pub const CONTEXT: usize = 128;

/// The grapheme clusters of `s`, in order.
pub uninterp spec fn graphemes_of(s: Seq<char>) -> Seq<Seq<char>>;

/// The pieces of `s` between word boundaries, in order.
pub uninterp spec fn word_pieces_of(s: Seq<char>) -> Seq<Seq<char>>;

/// The display width of `s`, in terminal columns.
pub uninterp spec fn display_width(s: Seq<char>) -> usize;

/// The chars of each string.
pub open spec fn views(ps: Seq<String>) -> Seq<Seq<char>> {
    ps.map_values(|p: String| p@)
}

/// Relies on `UnicodeSegmentation::graphemes` (extended clusters): the
/// clusters of `s`, each copied out.
#[verifier::external_body]
fn split_graphemes(s: &str) -> (r: Vec<String>)
    ensures
        views(r@) == graphemes_of(s@),
{
    unicode_segmentation::UnicodeSegmentation::graphemes(s, true).map(String::from).collect()
}

/// Relies on `UnicodeSegmentation::split_word_bounds`: the pieces of `s`
/// between word boundaries, each copied out.
#[verifier::external_body]
fn split_words(s: &str) -> (r: Vec<String>)
    ensures
        views(r@) == word_pieces_of(s@),
{
    unicode_segmentation::UnicodeSegmentation::split_word_bounds(s).map(String::from).collect()
}

/// Relies on `UnicodeWidthStr::width`: the columns that `s` takes.
#[verifier::external_body]
fn str_width(s: &str) -> (w: usize)
    ensures
        w == display_width(s@),
{
    unicode_width::UnicodeWidthStr::width(s)
}

/// Total length of the first `k` pieces.
pub open spec fn prefix_len(ps: Seq<Seq<char>>, k: int) -> int
    decreases k,
{
    if k <= 0 || k > ps.len() {
        0
    } else {
        prefix_len(ps, k - 1) + ps[k - 1].len()
    }
}

/// Some piece of `ps` starts at offset `t`.
pub open spec fn starts_piece(ps: Seq<Seq<char>>, t: int) -> bool {
    exists|k: int| 0 <= k < ps.len() && prefix_len(ps, k) == t
}

pub open spec fn window_start(i: int) -> int {
    if i > CONTEXT {
        i - CONTEXT
    } else {
        0
    }
}

pub open spec fn window_end(s: Seq<char>, i: int) -> int {
    if i + CONTEXT < s.len() {
        i + CONTEXT
    } else {
        s.len() as int
    }
}

/// `i` is a grapheme boundary of `s`: the two ends always are; an inner
/// position is one where a cluster starts in the window around it.
pub open spec fn is_boundary(s: Seq<char>, i: int) -> bool {
    ||| i == 0
    ||| i == s.len()
    ||| (0 < i < s.len() && starts_piece(
        graphemes_of(s.subrange(window_start(i), window_end(s, i))),
        i - window_start(i),
    ))
}

/// `r` is the least boundary after `i`.
pub open spec fn least_boundary_after(s: Seq<char>, i: int, r: int) -> bool {
    &&& i < r <= s.len()
    &&& is_boundary(s, r)
    &&& forall|m: int| i < m < r ==> !is_boundary(s, m)
}

/// `r` is the greatest boundary before `i`.
pub open spec fn greatest_boundary_before(s: Seq<char>, i: int, r: int) -> bool {
    &&& 0 <= r < i
    &&& r <= s.len()
    &&& is_boundary(s, r)
    &&& forall|m: int| r < m < i ==> !is_boundary(s, m)
}

/// The least boundary after `i`; the end of `s` from the end onwards.
pub open spec fn next_boundary(s: Seq<char>, i: int) -> int {
    if i >= s.len() {
        s.len() as int
    } else {
        choose|r: int| least_boundary_after(s, i, r)
    }
}

/// The greatest boundary before `i`; 0 at 0.
pub open spec fn prev_boundary(s: Seq<char>, i: int) -> int {
    if i <= 0 {
        0
    } else {
        choose|r: int| greatest_boundary_before(s, i, r)
    }
}

/// `p` itself where it is a boundary, else the next boundary after it.
pub open spec fn boundary_at_or_after(s: Seq<char>, p: int) -> int {
    if is_boundary(s, p) {
        p
    } else {
        next_boundary(s, p)
    }
}

/// `p` itself where it is a boundary, else the previous boundary before it.
pub open spec fn boundary_at_or_before(s: Seq<char>, p: int) -> int {
    if is_boundary(s, p) {
        p
    } else {
        prev_boundary(s, p)
    }
}

/// Display width of the cluster at the start of `s`: 0 for empty text,
/// else at least one column.
pub open spec fn first_grapheme_width(s: Seq<char>) -> usize {
    if s.len() == 0 {
        0
    } else {
        let gs = graphemes_of(s.subrange(0, window_end(s, 0)));
        if gs.len() == 0 || display_width(gs[0]) == 0 {
            1
        } else {
            display_width(gs[0])
        }
    }
}

/// The word boundary before `i` (a position past the end counts as the end):
/// the start of the last word piece in the window that ends at `i`, or 0
/// where that window holds no inner boundary.
pub open spec fn prev_word_boundary_of(s: Seq<char>, i: int) -> int {
    let i = if i > s.len() {
        s.len() as int
    } else {
        i
    };
    if i <= 0 {
        0
    } else {
        let lo = window_start(i);
        let ws = word_pieces_of(s.subrange(lo, i));
        if ws.len() >= 2 && prefix_len(ws, ws.len() - 1) < i - lo {
            lo + prefix_len(ws, ws.len() - 1)
        } else {
            0
        }
    }
}

/// The word boundary after `i`: the end of the first word piece in the
/// window that starts at `i`, or the end of `s` where that window holds no
/// inner boundary.
pub open spec fn next_word_boundary_of(s: Seq<char>, i: int) -> int {
    if i >= s.len() {
        s.len() as int
    } else {
        let hi = window_end(s, i);
        let ws = word_pieces_of(s.subrange(i, hi));
        if ws.len() >= 2 && 0 < ws[0].len() <= hi - i {
            i + ws[0].len()
        } else {
            s.len() as int
        }
    }
}

pub proof fn lemma_prefix_len_mono(ps: Seq<Seq<char>>, a: int, b: int)
    requires
        0 <= a <= b <= ps.len(),
    ensures
        prefix_len(ps, a) <= prefix_len(ps, b),
    decreases b - a,
{
    if a < b {
        lemma_prefix_len_mono(ps, a, b - 1);
    }
}

pub proof fn lemma_next_boundary_exists(s: Seq<char>, i: int, j: int)
    requires
        i < j <= s.len(),
        forall|m: int| i < m < j ==> !is_boundary(s, m),
    ensures
        least_boundary_after(s, i, next_boundary(s, i)),
    decreases s.len() - j,
{
    if is_boundary(s, j) {
        assert(least_boundary_after(s, i, j));
    } else {
        assert forall|m: int| i < m < j + 1 implies !is_boundary(s, m) by {
            if m == j {
            }
        }
        lemma_next_boundary_exists(s, i, j + 1);
    }
}

pub proof fn lemma_prev_boundary_exists(s: Seq<char>, i: int, j: int)
    requires
        0 <= j < i,
        j <= s.len(),
        forall|m: int| j < m < i ==> !is_boundary(s, m),
    ensures
        greatest_boundary_before(s, i, prev_boundary(s, i)),
    decreases j,
{
    if is_boundary(s, j) {
        assert(greatest_boundary_before(s, i, j));
    } else {
        assert forall|m: int| j - 1 < m < i implies !is_boundary(s, m) by {
            if m == j {
            }
        }
        lemma_prev_boundary_exists(s, i, j - 1);
    }
}

/// What `next_boundary` is, on every input.
pub proof fn lemma_next_boundary(s: Seq<char>, i: int)
    ensures
        i < s.len() ==> least_boundary_after(s, i, next_boundary(s, i)),
        i < next_boundary(s, i) || next_boundary(s, i) == s.len(),
        next_boundary(s, i) <= s.len(),
        is_boundary(s, next_boundary(s, i)),
{
    if i < s.len() {
        lemma_next_boundary_exists(s, i, i + 1);
    }
}

/// What `prev_boundary` is, on every input.
pub proof fn lemma_prev_boundary(s: Seq<char>, i: int)
    ensures
        i > 0 ==> greatest_boundary_before(s, i, prev_boundary(s, i)),
        0 <= prev_boundary(s, i),
        i > 0 ==> prev_boundary(s, i) < i,
        prev_boundary(s, i) <= s.len(),
        is_boundary(s, prev_boundary(s, i)),
{
    if i > 0 {
        let j = if i - 1 > s.len() {
            s.len() as int
        } else {
            i - 1
        };
        lemma_prev_boundary_exists(s, i, j);
    }
}

/// Whether some piece of `ps` starts at offset `t`.
fn starts_piece_at(ps: &Vec<String>, t: usize) -> (b: bool)
    ensures
        b == starts_piece(views(ps@), t as int),
{
    let ghost v = views(ps@);
    let mut k: usize = 0;
    let mut sum: usize = 0;
    while k < ps.len()
        invariant
            0 <= k <= ps.len(),
            v == views(ps@),
            v.len() == ps@.len(),
            sum == prefix_len(v, k as int),
            sum <= t,
            forall|j: int| 0 <= j < k ==> prefix_len(v, j) != t,
        decreases ps.len() - k,
    {
        if sum == t {
            assert(0 <= k < v.len() && prefix_len(v, k as int) == t);
            return true;
        }
        let n = ps[k].as_str().unicode_len();
        assert(v[k as int] == ps@[k as int]@);
        if n > t - sum {
            proof {
                assert forall|j: int| 0 <= j < v.len() implies prefix_len(v, j) != t by {
                    if j > k {
                        lemma_prefix_len_mono(v, k + 1, j);
                    }
                }
            }
            return false;
        }
        sum = sum + n;
        k = k + 1;
    }
    false
}

/// Whether `i` is a grapheme boundary of the buffer.
fn boundary_at(r: &ropey::Rope, i: usize) -> (b: bool)
    ensures
        b == is_boundary(rope_chars(*r), i as int),
{
    let len = rope_len_chars(r);
    if i == 0 || i == len {
        return true;
    }
    if i > len {
        return false;
    }
    let lo = if i > CONTEXT {
        i - CONTEXT
    } else {
        0
    };
    let hi = if len - i > CONTEXT {
        i + CONTEXT
    } else {
        len
    };
    let window = rope_slice_string(r, lo, hi);
    let pieces = split_graphemes(window.as_str());
    starts_piece_at(&pieces, i - lo)
}

/// Boundary and width queries over a text buffer.
pub trait GraphemeOperations {
    /// The chars of the buffer.
    spec fn text_view(&self) -> Seq<char>;

    /// Width in columns of the cluster at the start of the buffer.
    fn grapheme_width(&self) -> (w: usize)
        ensures
            w == first_grapheme_width(self.text_view()),
    ;

    /// The greatest grapheme boundary before `index`, or 0 at 0.
    fn prev_grapheme_boundary(&self, index: usize) -> (r: usize)
        ensures
            r == prev_boundary(self.text_view(), index as int),
    ;

    /// The word boundary before `char_idx`.
    fn prev_word_boundary(&self, char_idx: usize) -> (r: usize)
        ensures
            r == prev_word_boundary_of(self.text_view(), char_idx as int),
    ;

    /// The least grapheme boundary after `index`, or the end of the buffer.
    fn next_grapheme_boundary(&self, index: usize) -> (r: usize)
        ensures
            r == next_boundary(self.text_view(), index as int),
    ;

    /// The word boundary after `char_idx`.
    fn next_word_boundary(&self, char_idx: usize) -> (r: usize)
        ensures
            r == next_word_boundary_of(self.text_view(), char_idx as int),
    ;

    /// Whether `index` is a grapheme boundary.
    fn is_grapheme_boundary(&self, index: usize) -> (b: bool)
        ensures
            b == is_boundary(self.text_view(), index as int),
    ;
}

impl GraphemeOperations for ropey::Rope {
    open spec fn text_view(&self) -> Seq<char> {
        rope_chars(*self)
    }

    fn grapheme_width(&self) -> (w: usize) {
        let len = rope_len_chars(self);
        if len == 0 {
            return 0;
        }
        let hi = if len > CONTEXT {
            CONTEXT
        } else {
            len
        };
        let window = rope_slice_string(self, 0, hi);
        let clusters = split_graphemes(window.as_str());
        if clusters.len() == 0 {
            return 1;
        }
        assert(views(clusters@)[0] == clusters@[0]@);
        let w = str_width(clusters[0].as_str());
        if w == 0 {
            1
        } else {
            w
        }
    }

    fn prev_grapheme_boundary(&self, index: usize) -> (r: usize) {
        let ghost s = rope_chars(*self);
        let len = rope_len_chars(self);
        if index == 0 {
            return 0;
        }
        if index > len {
            proof {
                assert(greatest_boundary_before(s, index as int, len as int));
                lemma_prev_boundary(s, index as int);
            }
            return len;
        }
        let mut j: usize = index - 1;
        loop
            invariant
                j < index <= len,
                len == s.len(),
                s == rope_chars(*self),
                forall|m: int| j < m < index ==> !is_boundary(s, m),
            ensures
                j < index,
                is_boundary(s, j as int),
                forall|m: int| j < m < index ==> !is_boundary(s, m),
            decreases j,
        {
            if boundary_at(self, j) {
                break;
            }
            assert(j != 0);
            j = j - 1;
        }
        proof {
            assert(greatest_boundary_before(s, index as int, j as int));
            lemma_prev_boundary(s, index as int);
        }
        j
    }

    fn prev_word_boundary(&self, char_idx: usize) -> (r: usize) {
        let len = rope_len_chars(self);
        let i = if char_idx > len {
            len
        } else {
            char_idx
        };
        if i == 0 {
            return 0;
        }
        let lo = if i > CONTEXT {
            i - CONTEXT
        } else {
            0
        };
        let window = rope_slice_string(self, lo, i);
        let pieces = split_words(window.as_str());
        let ghost v = views(pieces@);
        if pieces.len() < 2 {
            return 0;
        }
        let last = pieces.len() - 1;
        let mut k: usize = 0;
        let mut sum: usize = 0;
        while k < last
            invariant
                0 <= k <= last < pieces.len(),
                last == pieces.len() - 1,
                0 < i <= len,
                len == rope_chars(*self).len(),
                i == (if char_idx > len { len } else { char_idx }),
                lo == window_start(i as int),
                v == word_pieces_of(rope_chars(*self).subrange(lo as int, i as int)),
                v == views(pieces@),
                v.len() == pieces@.len(),
                sum == prefix_len(v, k as int),
                sum < i - lo,
            decreases last - k,
        {
            let n = pieces[k].as_str().unicode_len();
            assert(v[k as int] == pieces@[k as int]@);
            if n >= i - lo - sum {
                proof {
                    assert(prefix_len(v, k + 1) == sum + n);
                    lemma_prefix_len_mono(v, k + 1, last as int);
                    assert(prefix_len(v, v.len() - 1) >= i - lo);
                }
                return 0;
            }
            sum = sum + n;
            k = k + 1;
        }
        lo + sum
    }

    fn next_grapheme_boundary(&self, index: usize) -> (r: usize) {
        let ghost s = rope_chars(*self);
        let len = rope_len_chars(self);
        if index >= len {
            return len;
        }
        let mut j: usize = index + 1;
        loop
            invariant
                index < j <= len,
                len == s.len(),
                s == rope_chars(*self),
                forall|m: int| index < m < j ==> !is_boundary(s, m),
            ensures
                index < j <= len,
                is_boundary(s, j as int),
                forall|m: int| index < m < j ==> !is_boundary(s, m),
            decreases len - j,
        {
            if j == len || boundary_at(self, j) {
                break;
            }
            j = j + 1;
        }
        proof {
            assert(least_boundary_after(s, index as int, j as int));
            lemma_next_boundary(s, index as int);
        }
        j
    }

    fn next_word_boundary(&self, char_idx: usize) -> (r: usize) {
        let len = rope_len_chars(self);
        if char_idx >= len {
            return len;
        }
        let hi = if len - char_idx > CONTEXT {
            char_idx + CONTEXT
        } else {
            len
        };
        let window = rope_slice_string(self, char_idx, hi);
        let pieces = split_words(window.as_str());
        let ghost v = views(pieces@);
        if pieces.len() < 2 {
            return len;
        }
        let n = pieces[0].as_str().unicode_len();
        assert(v[0] == pieces@[0]@);
        if 0 < n && n <= hi - char_idx {
            char_idx + n
        } else {
            len
        }
    }

    fn is_grapheme_boundary(&self, index: usize) -> (b: bool) {
        boundary_at(self, index)
    }
}

/// Stepping to the next grapheme boundary and back never goes past the
/// start, and returns exactly to it when the start was a boundary; the two
/// ends of the text are always boundaries.
pub proof fn lemma_next_then_prev(s: Seq<char>, i: int)
    requires
        0 <= i <= s.len(),
    ensures
        is_boundary(s, 0),
        is_boundary(s, s.len() as int),
        prev_boundary(s, next_boundary(s, i)) <= i,
        i < s.len() && is_boundary(s, i) ==> prev_boundary(s, next_boundary(s, i)) == i,
{
    lemma_next_boundary(s, i);
    let n = next_boundary(s, i);
    lemma_prev_boundary(s, n);
    let p = prev_boundary(s, n);
    if i < s.len() {
        if p > i {
            assert(!is_boundary(s, p));
        }
        if is_boundary(s, i) && p < i {
            assert(!is_boundary(s, i));
        }
    }
}

/// The boundary reached after `k` steps of `next_boundary` from 0.
pub open spec fn boundary_walk(s: Seq<char>, k: nat) -> int
    decreases k,
{
    if k == 0 {
        0
    } else {
        next_boundary(s, boundary_walk(s, (k - 1) as nat))
    }
}

proof fn lemma_walk_step(s: Seq<char>, k: nat)
    ensures
        0 <= boundary_walk(s, k) <= s.len(),
        is_boundary(s, boundary_walk(s, k)),
        boundary_walk(s, k) < s.len() ==> least_boundary_after(
            s,
            boundary_walk(s, k),
            boundary_walk(s, k + 1),
        ),
        boundary_walk(s, k) == s.len() ==> boundary_walk(s, k + 1) == s.len(),
        boundary_walk(s, k) <= boundary_walk(s, k + 1),
    decreases k,
{
    if k > 0 {
        lemma_walk_step(s, (k - 1) as nat);
    }
    lemma_next_boundary(s, boundary_walk(s, k));
}

proof fn lemma_walk_mono(s: Seq<char>, a: nat, b: nat)
    requires
        a <= b,
    ensures
        boundary_walk(s, a) <= boundary_walk(s, b),
    decreases b - a,
{
    if a < b {
        lemma_walk_step(s, (b - 1) as nat);
        lemma_walk_mono(s, a, (b - 1) as nat);
    }
}

proof fn lemma_walk_progress(s: Seq<char>, k: nat)
    ensures
        boundary_walk(s, k) >= (if k < s.len() {
            k as int
        } else {
            s.len() as int
        }),
    decreases k,
{
    if k > 0 {
        lemma_walk_progress(s, (k - 1) as nat);
        lemma_walk_step(s, (k - 1) as nat);
    }
}

/// Position `p` lies in the span from the `k`-th stop of the walk to the next.
pub open spec fn in_walk_span(s: Seq<char>, k: nat, p: int) -> bool {
    boundary_walk(s, k) <= p < boundary_walk(s, k + 1)
}

/// Some span of the walk holds position `p`.
pub open spec fn walk_covers(s: Seq<char>, p: int) -> bool {
    exists|k: nat| #[trigger] in_walk_span(s, k, p)
}

proof fn lemma_walk_cover(s: Seq<char>, p: int, k: nat)
    requires
        boundary_walk(s, k) <= p < s.len(),
    ensures
        walk_covers(s, p),
    decreases p - boundary_walk(s, k),
{
    lemma_walk_step(s, k);
    if boundary_walk(s, k + 1) > p {
        assert(in_walk_span(s, k, p));
    } else {
        lemma_walk_cover(s, p, k + 1);
    }
}

/// Walking the grapheme boundaries with `next_boundary` from 0 visits
/// boundaries only, climbs strictly and skips none until it reaches the end
/// (within as many steps as the text has chars), and the spans between
/// consecutive stops cover every position of the text exactly once.
pub proof fn lemma_boundary_walk(s: Seq<char>)
    ensures
        forall|k: nat|
            0 <= #[trigger] boundary_walk(s, k) <= s.len() && is_boundary(s, boundary_walk(s, k)),
        forall|k: nat|
            #[trigger] boundary_walk(s, k) < s.len() ==> least_boundary_after(
                s,
                boundary_walk(s, k),
                boundary_walk(s, k + 1),
            ),
        boundary_walk(s, s.len()) == s.len(),
        forall|p: int| 0 <= p < s.len() ==> #[trigger] walk_covers(s, p),
        forall|p: int, k1: nat, k2: nat|
            #[trigger] in_walk_span(s, k1, p) && #[trigger] in_walk_span(s, k2, p) ==> k1 == k2,
{
    assert forall|k: nat|
        0 <= #[trigger] boundary_walk(s, k) <= s.len() && is_boundary(s, boundary_walk(s, k)) by {
        lemma_walk_step(s, k);
    }
    assert forall|k: nat| #[trigger] boundary_walk(s, k) < s.len() implies least_boundary_after(
        s,
        boundary_walk(s, k),
        boundary_walk(s, k + 1),
    ) by {
        lemma_walk_step(s, k);
    }
    lemma_walk_progress(s, s.len());
    assert forall|p: int| 0 <= p < s.len() implies #[trigger] walk_covers(s, p) by {
        lemma_walk_cover(s, p, 0);
    }
    assert forall|p: int, k1: nat, k2: nat|
        #[trigger] in_walk_span(s, k1, p) && #[trigger] in_walk_span(s, k2, p) implies k1
        == k2 by {
        if k1 < k2 {
            lemma_walk_mono(s, k1 + 1, k2);
        } else if k2 < k1 {
            lemma_walk_mono(s, k2 + 1, k1);
        }
    }
}

/// Iterates over the grapheme clusters of a buffer, front to back.
pub struct GraphemeIter {
    rope: ropey::Rope,
    char_idx: usize,
    len_chars: usize,
}

impl GraphemeIter {
    /// The chars being iterated over.
    pub closed spec fn text(&self) -> Seq<char> {
        rope_chars(self.rope)
    }

    /// Where the next cluster starts.
    pub closed spec fn position(&self) -> int {
        self.char_idx as int
    }

    pub closed spec fn wf(&self) -> bool {
        &&& self.len_chars == rope_chars(self.rope).len()
        &&& self.char_idx <= self.len_chars
        &&& is_boundary(rope_chars(self.rope), self.char_idx as int)
    }

    pub fn new(slice: ropey::Rope) -> (it: GraphemeIter)
        ensures
            it.wf(),
            it.text() == rope_chars(slice),
            it.position() == 0,
    {
        let len_chars = rope_len_chars(&slice);
        GraphemeIter { rope: slice, char_idx: 0, len_chars }
    }

    /// The next cluster, or `None` at the end.
    pub fn next(&mut self) -> (g: Option<String>)
        requires
            old(self).wf(),
        ensures
            final(self).wf(),
            final(self).text() == old(self).text(),
            old(self).position() < old(self).text().len() ==> {
                &&& g is Some
                &&& final(self).position() == next_boundary(old(self).text(), old(self).position())
                &&& g.unwrap()@ == old(self).text().subrange(
                    old(self).position(),
                    final(self).position(),
                )
            },
            old(self).position() >= old(self).text().len() ==> g is None && final(self).position()
                == old(self).position(),
    {
        if self.char_idx >= self.len_chars {
            return None;
        }
        let next = self.rope.next_grapheme_boundary(self.char_idx);
        proof {
            lemma_next_boundary(rope_chars(self.rope), self.char_idx as int);
        }
        let grapheme = rope_slice_string(&self.rope, self.char_idx, next);
        self.char_idx = next;
        Some(grapheme)
    }
}

} // verus!
