//! The document view: the text with a gutter of spacers and line numbers
//! to its left.
use vstd::prelude::*;
use vstd::string::{StrSliceExecFns, StringExecFns};

use crate::config::{GutterElement, GuttersConfig, LineNumbersConfig};
use crate::state::{EditorEvent, EditorState};
use crate::text::{line_count, line_of, rope_char_to_line, rope_len_lines};
use crate::view::{decimal, decimal_string, pad_right, pad_right_string, ViewState};

verus! {

/// Columns the gutter takes: one per spacer, and for line numbers the
/// digits of the largest one plus one.
pub open spec fn gutter_width(layout: Seq<GutterElement>, digits: nat) -> nat
    decreases layout.len(),
{
    if layout.len() == 0 {
        0
    } else {
        gutter_width(layout.drop_last(), digits) + match layout.last() {
            GutterElement::Spacer => 1nat,
            GutterElement::LineNumbers => digits + 1,
        }
    }
}

/// Number of tabs in `s`.
pub open spec fn tab_count(s: Seq<char>) -> nat
    decreases s.len(),
{
    if s.len() == 0 {
        0
    } else {
        tab_count(s.drop_last()) + if s.last() == '\t' {
            1nat
        } else {
            0nat
        }
    }
}

/// Columns `s` takes when each tab takes `tab_width` columns, held to
/// `usize::MAX`.
pub open spec fn tabbed_width(s: Seq<char>, tab_width: nat) -> int {
    let full = s.len() + tab_count(s) * tab_width;
    let capped = if full > usize::MAX {
        usize::MAX as int
    } else {
        full as int
    };
    capped - tab_count(s)
}

/// The line number shown for screen row `y`: `~` past the last line; with
/// relative numbers, the distance to the cursor's line except on that line
/// itself; else the line's number counted from 1.
pub open spec fn line_number_text(s: Seq<char>, cursor: int, y: int, relative: bool) -> Seq<char> {
    if y >= line_count(s) {
        seq!['~']
    } else if relative && y != line_of(s, cursor) {
        decimal(
            (if y > line_of(s, cursor) {
                y - line_of(s, cursor)
            } else {
                line_of(s, cursor) - y
            }) as nat,
        )
    } else {
        decimal((y + 1) as nat)
    }
}

/// The gutter of screen row `y`, element by element.
pub open spec fn gutter_text(
    layout: Seq<GutterElement>,
    numbers: Option<LineNumbersConfig>,
    s: Seq<char>,
    cursor: int,
    y: int,
) -> Seq<char>
    decreases layout.len(),
{
    if layout.len() == 0 {
        seq![]
    } else {
        gutter_text(layout.drop_last(), numbers, s, cursor, y) + match layout.last() {
            GutterElement::Spacer => seq![' '],
            GutterElement::LineNumbers => match numbers {
                Some(c) => pad_right(
                    line_number_text(s, cursor, y, c.relative),
                    if c.min_width < 4 {
                        c.min_width as int
                    } else {
                        4
                    },
                ),
                None => seq![],
            },
        }
    }
}

/// Number of spacers in `layout`.
pub open spec fn spacer_count(layout: Seq<GutterElement>) -> nat
    decreases layout.len(),
{
    if layout.len() == 0 {
        0
    } else {
        spacer_count(layout.drop_last()) + if layout.last() == GutterElement::Spacer {
            1nat
        } else {
            0nat
        }
    }
}

/// `n`, held to `usize::MAX`.
pub open spec fn capped(n: int) -> int {
    if n > usize::MAX {
        usize::MAX as int
    } else {
        n
    }
}

/// `n`, held to `u16::MAX`.
pub open spec fn to_u16_capped(n: int) -> int {
    if n > u16::MAX {
        u16::MAX as int
    } else {
        n
    }
}

/// `a - b`, or 0 where `b` is larger.
pub open spec fn minus_capped(a: int, b: int) -> int {
    if a > b {
        a - b
    } else {
        0
    }
}

/// Columns left over after a line's text in a row `width` columns wide.
pub open spec fn content_padding_of(
    layout: Seq<GutterElement>,
    line: Option<Seq<char>>,
    width: int,
) -> int {
    let rest = minus_capped(width, to_u16_capped(spacer_count(layout) as int));
    match line {
        Some(t) => minus_capped(rest, to_u16_capped(tabbed_width(t, 4))),
        None => rest,
    }
}

pub struct Document {
    config: GuttersConfig,
    dirty: bool,
}

impl Document {
    /// The gutter elements, in order.
    pub closed spec fn layout(&self) -> Seq<GutterElement> {
        self.config.layout@
    }

    /// How line numbers are shown.
    pub closed spec fn numbers(&self) -> Option<LineNumbersConfig> {
        self.config.line_numbers
    }

    /// A document view with the given gutter; it starts dirty.
    pub fn new(config: &GuttersConfig) -> (d: Document)
        ensures
            d.layout() == config.layout@,
            d.numbers() == config.line_numbers,
            d.dirty_flag(),
    {
        let mut layout: Vec<GutterElement> = Vec::new();
        let mut k: usize = 0;
        while k < config.layout.len()
            invariant
                k <= config.layout.len(),
                layout@ == config.layout@.take(k as int),
            decreases config.layout.len() - k,
        {
            layout.push(config.layout[k]);
            assert(layout@ =~= config.layout@.take(k + 1));
            k = k + 1;
        }
        assert(layout@ =~= config.layout@);
        Document {
            config: GuttersConfig { layout, line_numbers: config.line_numbers },
            dirty: true,
        }
    }

    /// Columns the gutter takes for the buffer of `state`, held to
    /// `usize::MAX`.
    pub fn dent(&self, state: &EditorState) -> (w: usize)
        ensures
            w == capped(gutter_width(self.layout(), decimal(line_count(state.text())).len()) as int),
    {
        let lines = rope_len_lines(&state.buffer);
        let digits = decimal_string(lines).as_str().unicode_len();
        let ghost layout = self.config.layout@;
        let mut width: usize = 0;
        let mut k: usize = 0;
        while k < self.config.layout.len()
            invariant
                k <= layout.len(),
                layout == self.config.layout@,
                width == capped(gutter_width(layout.take(k as int), digits as nat) as int),
            decreases layout.len() - k,
        {
            assert(layout.take(k + 1).drop_last() =~= layout.take(k as int));
            let step: usize = match self.config.layout[k] {
                GutterElement::Spacer => 1,
                GutterElement::LineNumbers => if digits < usize::MAX {
                    digits + 1
                } else {
                    usize::MAX
                },
            };
            width = if width > usize::MAX - step {
                usize::MAX
            } else {
                width + step
            };
            k = k + 1;
        }
        assert(layout.take(layout.len() as int) =~= layout);
        width
    }

    /// Columns `txt` takes when each tab takes `width` columns.
    pub fn width(&self, txt: &str, width: usize) -> (w: usize)
        ensures
            w == tabbed_width(txt@, width as nat),
    {
        let n = txt.unicode_len();
        let mut tabs: usize = 0;
        let mut k: usize = 0;
        while k < n
            invariant
                n == txt@.len(),
                k <= n,
                tabs == tab_count(txt@.take(k as int)),
                tabs <= k,
            decreases n - k,
        {
            assert(txt@.take(k + 1).drop_last() =~= txt@.take(k as int));
            if txt.get_char(k) == '\t' {
                tabs = tabs + 1;
            }
            k = k + 1;
        }
        assert(txt@.take(n as int) =~= txt@);
        let full = match tabs.checked_mul(width) {
            Some(extra) => if extra <= usize::MAX - n {
                n + extra
            } else {
                usize::MAX
            },
            None => usize::MAX,
        };
        proof {
            if tabs * width <= usize::MAX {
                assert(tabs <= tabs * width || width == 0) by (nonlinear_arith)
                    requires
                        tabs * width <= usize::MAX,
                ;
            }
        }
        full - tabs
    }

    /// The line number shown for screen row `y`.
    pub fn get_line_number_display(
        &self,
        state: &EditorState,
        y: u16,
        config: &LineNumbersConfig,
    ) -> (t: String)
        requires
            state.wf(),
        ensures
            t@ == line_number_text(
                state.text(),
                state.cursor.index as int,
                y as int,
                config.relative,
            ),
    {
        let lines = rope_len_lines(&state.buffer);
        let row = y as usize;
        if row >= lines {
            proof {
                reveal_strlit("~");
            }
            let t = String::from_str("~");
            assert(t@ =~= seq!['~']);
            t
        } else if config.relative {
            let line = rope_char_to_line(&state.buffer, state.cursor.index);
            if row == line {
                decimal_string(row + 1)
            } else if row > line {
                decimal_string(row - line)
            } else {
                decimal_string(line - row)
            }
        } else {
            decimal_string(row + 1)
        }
    }

    /// The gutter of screen row `y`: a space for each spacer, the line number
    /// padded to its width (at most 4) for the line numbers.
    pub fn gutter(&self, state: &EditorState, y: u16) -> (t: String)
        requires
            state.wf(),
        ensures
            t@ == gutter_text(
                self.layout(),
                self.numbers(),
                state.text(),
                state.cursor.index as int,
                y as int,
            ),
    {
        let ghost layout = self.config.layout@;
        let mut out = String::new();
        let mut k: usize = 0;
        while k < self.config.layout.len()
            invariant
                k <= layout.len(),
                layout == self.config.layout@,
                state.wf(),
                out@ == gutter_text(
                    layout.take(k as int),
                    self.config.line_numbers,
                    state.text(),
                    state.cursor.index as int,
                    y as int,
                ),
            decreases layout.len() - k,
        {
            assert(layout.take(k + 1).drop_last() =~= layout.take(k as int));
            match self.config.layout[k] {
                GutterElement::Spacer => {
                    proof {
                        reveal_strlit(" ");
                    }
                    out.append(" ");
                },
                GutterElement::LineNumbers => {
                    match &self.config.line_numbers {
                        Some(c) => {
                            let number = self.get_line_number_display(state, y, c);
                            let w: usize = if c.min_width < 4 {
                                c.min_width as usize
                            } else {
                                4
                            };
                            let cell = pad_right_string(number, w);
                            out.append(cell.as_str());
                        },
                        None => {},
                    }
                },
            }
            k = k + 1;
        }
        assert(layout.take(layout.len() as int) =~= layout);
        out
    }

    /// Columns left to fill after `line` (or after nothing, past the last
    /// line) in a row `width` columns wide, tabs taking four columns.
    pub fn content_padding(&self, line: Option<&str>, width: u16) -> (p: u16)
        ensures
            p == content_padding_of(
                self.layout(),
                match line {
                    Some(t) => Some(t@),
                    None => None,
                },
                width as int,
            ),
    {
        let ghost layout = self.config.layout@;
        let mut spacers: usize = 0;
        let mut k: usize = 0;
        while k < self.config.layout.len()
            invariant
                k <= layout.len(),
                layout == self.config.layout@,
                spacers == spacer_count(layout.take(k as int)),
                spacers <= k,
            decreases layout.len() - k,
        {
            assert(layout.take(k + 1).drop_last() =~= layout.take(k as int));
            if self.config.layout[k] == GutterElement::Spacer {
                spacers = spacers + 1;
            }
            k = k + 1;
        }
        assert(layout.take(layout.len() as int) =~= layout);
        let spacers16: u16 = if spacers > 65535 {
            65535
        } else {
            spacers as u16
        };
        let rest: u16 = if width > spacers16 {
            width - spacers16
        } else {
            0
        };
        match line {
            Some(t) => {
                let w = self.width(t, 4);
                let w16: u16 = if w > 65535 {
                    65535
                } else {
                    w as u16
                };
                if rest > w16 {
                    rest - w16
                } else {
                    0
                }
            },
            None => rest,
        }
    }
}

impl ViewState for Document {
    closed spec fn dirty_flag(&self) -> bool {
        self.dirty
    }

    fn handle_event(&mut self, event: &EditorEvent, state: &EditorState) {
        match event {
            EditorEvent::CursorMoved(_, _)
            | EditorEvent::BufferChanged
            | EditorEvent::ModeChanged(_) => {
                self.dirty = true;
            },
            _ => {},
        }
    }

    fn is_dirty(&self) -> (b: bool) {
        self.dirty
    }

    fn mark_clean(&mut self) {
        self.dirty = false;
    }
}

} // verus!
