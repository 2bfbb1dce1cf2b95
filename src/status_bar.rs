//! The status bar view: three sections of items, laid out across one row.
use vstd::prelude::*;
use vstd::string::{StrSliceExecFns, StringExecFns};

use crate::config::{Mode, StatusBarConfig, StatusBarItem};
use crate::state::{coords_at_pos, coords_of, EditorEvent, EditorState};
use crate::text::{line_count, rope_len_lines};
use crate::view::{decimal, decimal_string, spaces, spaces_string, ViewState};

verus! {

/// A section of the status bar.
#[derive(Clone, Copy, Debug, PartialEq, Eq, Structural, Hash)]
pub enum Section {
    Left,
    Center,
    Right,
}

/// A status item together with what it shows.
#[derive(Clone, Debug, PartialEq, Eq)]
pub enum StatusItemKind {
    Mode(Mode),
    /// Row and column.
    CursorPosition(usize, usize),
    /// Lines in the buffer.
    LineCount(usize),
    FileName(String),
    FileEncoding(String),
    /// Programming language or file type.
    Language(String),
}

/// How an item kind reads: `NOR` or `INS` for the mode, `row:col` for the
/// position, the count, or the name itself.
pub open spec fn kind_text(kind: StatusItemKind) -> Seq<char> {
    match kind {
        StatusItemKind::Mode(Mode::Normal) => "NOR"@,
        StatusItemKind::Mode(Mode::Insert) => "INS"@,
        StatusItemKind::CursorPosition(row, col) => decimal(row as nat) + seq![':'] + decimal(
            col as nat,
        ),
        StatusItemKind::LineCount(count) => decimal(count as nat),
        StatusItemKind::FileName(name) => name@,
        StatusItemKind::FileEncoding(encoding) => encoding@,
        StatusItemKind::Language(lang) => lang@,
    }
}

impl StatusItemKind {
    /// The text this item shows.
    pub fn text(&self) -> (t: String)
        ensures
            t@ == kind_text(*self),
    {
        match self {
            StatusItemKind::Mode(Mode::Normal) => String::from_str("NOR"),
            StatusItemKind::Mode(Mode::Insert) => String::from_str("INS"),
            StatusItemKind::CursorPosition(row, col) => {
                proof {
                    reveal_strlit(":");
                }
                let t = decimal_string(*row).concat(":").concat(decimal_string(*col).as_str());
                assert(":"@ =~= seq![':']);
                t
            },
            StatusItemKind::LineCount(count) => decimal_string(*count),
            StatusItemKind::FileName(name) => name.clone(),
            StatusItemKind::FileEncoding(encoding) => encoding.clone(),
            StatusItemKind::Language(lang) => lang.clone(),
        }
    }
}

/// One item of a status bar.
#[derive(Clone, Debug)]
pub struct StatusItem {
    kind: StatusItemKind,
}

impl StatusItem {
    pub closed spec fn kind_spec(&self) -> StatusItemKind {
        self.kind
    }

    pub fn new(kind: StatusItemKind) -> (i: StatusItem)
        ensures
            i.kind_spec() == kind,
    {
        StatusItem { kind }
    }

    /// The text this item shows.
    pub fn text(&self) -> (t: String)
        ensures
            t@ == kind_text(self.kind_spec()),
    {
        self.kind.text()
    }
}

/// The text an item shows for `st`, given the names of the two modes.
pub open spec fn item_text(
    item: StatusBarItem,
    normal: Seq<char>,
    insert: Seq<char>,
    st: EditorState,
) -> Seq<char> {
    match item {
        StatusBarItem::Mode => if st.mode == Mode::Normal {
            normal
        } else {
            insert
        },
        StatusBarItem::CursorPosition => decimal(
            coords_of(st.text(), st.cursor.index as int).0 as nat,
        ) + seq![':'] + decimal(coords_of(st.text(), st.cursor.index as int).1 as nat),
        StatusBarItem::Language => "rust"@,
        StatusBarItem::LineCount => decimal(line_count(st.text())),
        StatusBarItem::FileName => "test.rs"@,
        StatusBarItem::FileEncoding => "UTF-8"@,
        StatusBarItem::FileType => seq![],
    }
}

/// The texts of `items`, joined by `" | "`.
pub open spec fn section_text(
    items: Seq<StatusBarItem>,
    normal: Seq<char>,
    insert: Seq<char>,
    st: EditorState,
) -> Seq<char>
    decreases items.len(),
{
    if items.len() == 0 {
        seq![]
    } else if items.len() == 1 {
        item_text(items[0], normal, insert, st)
    } else {
        section_text(items.drop_last(), normal, insert, st) + " | "@ + item_text(
            items.last(),
            normal,
            insert,
            st,
        )
    }
}

/// Total number of chars of `ss`.
pub open spec fn total_len(ss: Seq<Seq<char>>) -> int
    decreases ss.len(),
{
    if ss.len() == 0 {
        0
    } else {
        total_len(ss.drop_last()) + ss.last().len()
    }
}

/// At most the first `n` chars of `t`.
pub open spec fn clip(t: Seq<char>, n: int) -> Seq<char> {
    if t.len() > n {
        t.take(n)
    } else {
        t
    }
}

/// The left, center and right texts laid out in a row `width` wide. When
/// they do not fit, each of the first three is cut to a third of the row
/// (the right one takes what the others leave); three sections are
/// expected, and anything else shows as blank.
pub open spec fn fitted_sections(ss: Seq<Seq<char>>, width: int) -> (
    Seq<char>,
    Seq<char>,
    Seq<char>,
) {
    if total_len(ss) > width {
        if ss.len() >= 3 {
            (clip(ss[0], width / 3), clip(ss[1], width / 3), clip(ss[2], width - 2 * (width / 3)))
        } else {
            (seq![], seq![], seq![])
        }
    } else if ss.len() == 3 {
        (ss[0], ss[1], ss[2])
    } else {
        (seq![], seq![], seq![])
    }
}

/// The row: left text, half the spare room, center text, the other half,
/// right text.
pub open spec fn status_line(ss: Seq<Seq<char>>, width: int) -> Seq<char> {
    let (l, c, r) = fitted_sections(ss, width);
    let used = l.len() + c.len() + r.len();
    let spare = if width > used {
        width - used
    } else {
        0
    };
    l + spaces(spare / 2) + c + spaces(spare - spare / 2) + r
}

pub struct StatusBar {
    config: StatusBarConfig,
    dirty: bool,
}

impl StatusBar {
    pub closed spec fn items(&self, section: Section) -> Seq<StatusBarItem> {
        match section {
            Section::Left => self.config.left@,
            Section::Center => self.config.center@,
            Section::Right => self.config.right@,
        }
    }

    pub closed spec fn normal_name(&self) -> Seq<char> {
        self.config.mode.normal@
    }

    pub closed spec fn insert_name(&self) -> Seq<char> {
        self.config.mode.insert@
    }

    /// A status bar with the given sections; it starts dirty.
    pub fn new(config: &StatusBarConfig) -> (b: StatusBar)
        ensures
            b.items(Section::Left) == config.left@,
            b.items(Section::Center) == config.center@,
            b.items(Section::Right) == config.right@,
            b.normal_name() == config.mode.normal@,
            b.insert_name() == config.mode.insert@,
            b.dirty_flag(),
    {
        let config = StatusBarConfig {
            left: copy_items(&config.left),
            center: copy_items(&config.center),
            right: copy_items(&config.right),
            mode: crate::config::ModeNames {
                normal: config.mode.normal.clone(),
                insert: config.mode.insert.clone(),
            },
        };
        StatusBar { config, dirty: true }
    }

    /// The text of one item.
    fn item(&self, item: StatusBarItem, state: &EditorState) -> (t: String)
        requires
            state.wf(),
        ensures
            t@ == item_text(item, self.normal_name(), self.insert_name(), *state),
    {
        match item {
            StatusBarItem::Mode => match state.mode {
                Mode::Normal => self.config.mode.normal.clone(),
                Mode::Insert => self.config.mode.insert.clone(),
            },
            StatusBarItem::CursorPosition => {
                let (line, col) = coords_at_pos(&state.buffer, state.cursor.index);
                proof {
                    reveal_strlit(":");
                }
                let t = decimal_string(line).concat(":").concat(decimal_string(col).as_str());
                assert(":"@ =~= seq![':']);
                t
            },
            StatusBarItem::Language => String::from_str("rust"),
            StatusBarItem::LineCount => decimal_string(rope_len_lines(&state.buffer)),
            StatusBarItem::FileName => String::from_str("test.rs"),
            StatusBarItem::FileEncoding => String::from_str("UTF-8"),
            StatusBarItem::FileType => {
                let t = String::new();
                assert(t@ =~= seq![]);
                t
            },
        }
    }

    /// The texts of `items`, joined by `" | "`.
    pub fn build_section(&self, items: &Vec<StatusBarItem>, state: &EditorState) -> (t: String)
        requires
            state.wf(),
        ensures
            t@ == section_text(items@, self.normal_name(), self.insert_name(), *state),
    {
        let mut out = String::new();
        let mut k: usize = 0;
        while k < items.len()
            invariant
                k <= items.len(),
                state.wf(),
                out@ == section_text(
                    items@.take(k as int),
                    self.normal_name(),
                    self.insert_name(),
                    *state,
                ),
            decreases items.len() - k,
        {
            assert(items@.take(k + 1).drop_last() =~= items@.take(k as int));
            let text = self.item(items[k], state);
            if k == 0 {
                assert(items@.take(1)[0] == items@[0]);
                out = text;
            } else {
                out = out.concat(" | ").concat(text.as_str());
            }
            k = k + 1;
        }
        assert(items@.take(items.len() as int) =~= items@);
        out
    }

    /// Lay out the left, center and right texts across a row `width` wide.
    pub fn format_sections(&self, sections: Vec<String>, width: usize) -> (t: String)
        ensures
            t@ == status_line(sections@.map_values(|s: String| s@), width as int),
    {
        let ghost ss = sections@.map_values(|s: String| s@);
        let mut sum: usize = 0;
        let mut over = false;
        let mut k: usize = 0;
        while k < sections.len()
            invariant
                k <= sections.len(),
                ss == sections@.map_values(|s: String| s@),
                !over ==> sum == total_len(ss.take(k as int)) && sum <= width,
                over ==> total_len(ss) > width,
            decreases sections.len() - k,
        {
            if !over {
                assert(ss.take(k + 1).drop_last() =~= ss.take(k as int));
                let n = sections[k].as_str().unicode_len();
                if n > width - sum {
                    proof {
                        lemma_total_len_mono(ss, k + 1);
                    }
                    over = true;
                } else {
                    sum = sum + n;
                }
            }
            k = k + 1;
        }
        if !over {
            assert(ss.take(sections.len() as int) =~= ss);
        }
        let ghost fitted = fitted_sections(ss, width as int);
        let (l, c, r) = if over && sections.len() >= 3 {
            let third = width / 3;
            assert(ss[0] == sections@[0]@ && ss[1] == sections@[1]@ && ss[2] == sections@[2]@);
            let l = clip_string(&sections[0], third);
            let c = clip_string(&sections[1], third);
            let r = clip_string(&sections[2], width - 2 * third);
            assert(l@ == fitted.0 && c@ == fitted.1 && r@ == fitted.2);
            (l, c, r)
        } else if !over && sections.len() == 3 {
            assert(ss[0] == sections@[0]@ && ss[1] == sections@[1]@ && ss[2] == sections@[2]@);
            let l = sections[0].clone();
            let c = sections[1].clone();
            let r = sections[2].clone();
            assert(l@ == fitted.0 && c@ == fitted.1 && r@ == fitted.2);
            (l, c, r)
        } else {
            let e = String::new();
            assert(e@ =~= fitted.0 && e@ =~= fitted.1 && e@ =~= fitted.2);
            (String::new(), String::new(), String::new())
        };
        assert(l@ == fitted.0 && c@ == fitted.1 && r@ == fitted.2);
        proof {
            reveal_with_fuel(total_len, 4);
            if !over && sections.len() == 3 {
                assert(ss.drop_last().drop_last().drop_last().len() == 0);
                assert(total_len(ss) == ss[0].len() + ss[1].len() + ss[2].len());
            }
            assert(2 * (width / 3) <= width);
        }
        let used = l.as_str().unicode_len() + c.as_str().unicode_len() + r.as_str().unicode_len();
        let spare = width - used;
        let half = spare / 2;
        let out = l.concat(spaces_string(half).as_str()).concat(c.as_str()).concat(
            spaces_string(spare - half).as_str(),
        ).concat(r.as_str());
        out
    }

    /// The whole row for `state`, `width` columns wide.
    pub fn build(&self, state: &EditorState, width: usize) -> (t: String)
        requires
            state.wf(),
        ensures
            t@ == status_line(
                seq![
                    section_text(self.items(Section::Left), self.normal_name(), self.insert_name(), *state),
                    section_text(self.items(Section::Center), self.normal_name(), self.insert_name(), *state),
                    section_text(self.items(Section::Right), self.normal_name(), self.insert_name(), *state),
                ],
                width as int,
            ),
    {
        let mut sections: Vec<String> = Vec::new();
        sections.push(self.build_section(&self.config.left, state));
        sections.push(self.build_section(&self.config.center, state));
        sections.push(self.build_section(&self.config.right, state));
        let ghost expected = seq![
            section_text(self.items(Section::Left), self.normal_name(), self.insert_name(), *state),
            section_text(self.items(Section::Center), self.normal_name(), self.insert_name(), *state),
            section_text(self.items(Section::Right), self.normal_name(), self.insert_name(), *state),
        ];
        assert(sections@.map_values(|s: String| s@) =~= expected);
        self.format_sections(sections, width)
    }
}

/// The first `n` chars of `t`, or all of it.
fn clip_string(t: &String, n: usize) -> (s: String)
    ensures
        s@ == clip(t@, n as int),
{
    let len = t.as_str().unicode_len();
    if len > n {
        String::from_str(t.as_str().substring_char(0, n))
    } else {
        t.clone()
    }
}

/// A copy of `items`.
fn copy_items(items: &Vec<StatusBarItem>) -> (c: Vec<StatusBarItem>)
    ensures
        c@ == items@,
{
    let mut c: Vec<StatusBarItem> = Vec::new();
    let mut k: usize = 0;
    while k < items.len()
        invariant
            k <= items.len(),
            c@ == items@.take(k as int),
        decreases items.len() - k,
    {
        c.push(items[k]);
        assert(c@ =~= items@.take(k + 1));
        k = k + 1;
    }
    assert(c@ =~= items@);
    c
}

proof fn lemma_total_len_mono(ss: Seq<Seq<char>>, k: int)
    requires
        0 <= k <= ss.len(),
    ensures
        total_len(ss.take(k)) <= total_len(ss),
    decreases ss.len() - k,
{
    if k < ss.len() {
        assert(ss.take(k + 1).drop_last() =~= ss.take(k));
        lemma_total_len_mono(ss, k + 1);
    } else {
        assert(ss.take(k) =~= ss);
    }
}

impl ViewState for StatusBar {
    closed spec fn dirty_flag(&self) -> bool {
        self.dirty
    }

    fn handle_event(&mut self, event: &EditorEvent, state: &EditorState) {
        match event {
            EditorEvent::CursorMoved(_, _)
            | EditorEvent::ModeChanged(_)
            | EditorEvent::BufferChanged => {
                self.dirty = true;
            },
            _ => {},
        }
    }

    fn is_dirty(&self) -> (b: bool) {
        self.dirty
    }

    fn mark_clean(&mut self) {
        self.dirty = false;
    }
}

} // verus!
