//! Editor configuration: gutter layout, status bar sections, mode names,
//! cursor shapes and key maps, with their defaults.
use vstd::prelude::*;
use vstd::string::StringExecFns;

use std::collections::HashMap;

verus! {

/// The editing mode.
#[derive(Clone, Copy, Debug, PartialEq, Eq, Structural, Hash)]
pub enum Mode {
    Normal,
    Insert,
}

/// The whole configuration.
#[derive(Debug)]
pub struct Config {
    pub editor: EditorConfig,
    pub keymap: KeymapConfig,
}

/// How the editor looks.
#[derive(Debug)]
pub struct EditorConfig {
    pub gutters: GuttersConfig,
    pub status_bar: StatusBarConfig,
    pub cursor: CursorConfig,
}

/// What the gutter left of the text shows, in order.
#[derive(Clone, Debug)]
pub struct GuttersConfig {
    pub layout: Vec<GutterElement>,
    pub line_numbers: Option<LineNumbersConfig>,
}

/// One element of the gutter.
#[derive(Clone, Copy, Debug, PartialEq, Eq, Structural)]
pub enum GutterElement {
    Spacer,
    LineNumbers,
}

/// How line numbers are shown.
#[derive(Clone, Copy, Debug, PartialEq, Eq, Structural)]
pub struct LineNumbersConfig {
    /// Numbers other than the cursor's line count from the cursor's line.
    pub relative: bool,
    pub min_width: u8,
}

/// The items of the status bar's three sections, and the names it gives
/// the modes.
#[derive(Clone, Debug)]
pub struct StatusBarConfig {
    pub left: Vec<StatusBarItem>,
    pub center: Vec<StatusBarItem>,
    pub right: Vec<StatusBarItem>,
    pub mode: ModeNames,
}

/// One item of the status bar.
#[derive(Clone, Copy, Debug, PartialEq, Eq, Structural)]
pub enum StatusBarItem {
    Mode,
    CursorPosition,
    Language,
    LineCount,
    FileName,
    FileEncoding,
    FileType,
}

/// The names the status bar shows for the modes.
#[derive(Clone, Debug)]
pub struct ModeNames {
    pub normal: String,
    pub insert: String,
}

/// The cursor's shape in each mode.
#[derive(Clone, Copy, Debug, PartialEq, Eq, Structural)]
pub struct CursorConfig {
    pub normal: CursorShape,
    pub insert: CursorShape,
}

#[derive(Clone, Copy, Debug, PartialEq, Eq, Structural)]
pub enum CursorShape {
    Block,
    Bar,
    Underline,
}

/// Key bindings for each mode.
#[derive(Debug)]
pub struct KeymapConfig {
    pub normal: HashMap<String, StringOrNestedMap>,
    pub insert: HashMap<String, StringOrNestedMap>,
}

/// A key binding: a command name, or a table of further bindings.
#[derive(Debug)]
pub enum StringOrNestedMap {
    String(String),
    NestedMap(HashMap<String, String>),
}

impl Default for GuttersConfig {
    /// A spacer, then relative line numbers at least three wide.
    fn default() -> (c: GuttersConfig)
        ensures
            c.layout@ == seq![GutterElement::Spacer, GutterElement::LineNumbers],
            c.line_numbers == Some(LineNumbersConfig::default_spec()),
    {
        GuttersConfig {
            layout: vec![GutterElement::Spacer, GutterElement::LineNumbers],
            line_numbers: Some(LineNumbersConfig::default()),
        }
    }
}

impl LineNumbersConfig {
    pub open spec fn default_spec() -> LineNumbersConfig {
        LineNumbersConfig { relative: true, min_width: 3 }
    }
}

impl Default for LineNumbersConfig {
    fn default() -> (c: LineNumbersConfig)
        ensures
            c == LineNumbersConfig::default_spec(),
    {
        LineNumbersConfig { relative: true, min_width: 3 }
    }
}

impl Default for StatusBarConfig {
    /// The mode on the left; position, line count and language on the right.
    fn default() -> (c: StatusBarConfig)
        ensures
            c.left@ == seq![StatusBarItem::Mode],
            c.center@ == Seq::<StatusBarItem>::empty(),
            c.right@ == seq![
                StatusBarItem::CursorPosition,
                StatusBarItem::LineCount,
                StatusBarItem::Language,
            ],
            c.mode.normal@ == "Normal"@,
            c.mode.insert@ == "Insert"@,
    {
        StatusBarConfig {
            left: vec![StatusBarItem::Mode],
            center: Vec::new(),
            right: vec![
                StatusBarItem::CursorPosition,
                StatusBarItem::LineCount,
                StatusBarItem::Language,
            ],
            mode: ModeNames::default(),
        }
    }
}

impl Default for ModeNames {
    fn default() -> (n: ModeNames)
        ensures
            n.normal@ == "Normal"@,
            n.insert@ == "Insert"@,
    {
        ModeNames { normal: String::from_str("Normal"), insert: String::from_str("Insert") }
    }
}

impl Default for CursorConfig {
    /// A block in Normal mode, a bar in Insert mode.
    fn default() -> (c: CursorConfig)
        ensures
            c.normal == CursorShape::Block,
            c.insert == CursorShape::Bar,
    {
        CursorConfig { normal: CursorShape::Block, insert: CursorShape::Bar }
    }
}

impl Default for KeymapConfig {
    /// No bindings.
    fn default() -> (k: KeymapConfig)
        ensures
            k.normal@ == Map::<String, StringOrNestedMap>::empty(),
            k.insert@ == Map::<String, StringOrNestedMap>::empty(),
    {
        KeymapConfig { normal: HashMap::new(), insert: HashMap::new() }
    }
}

impl Default for EditorConfig {
    fn default() -> (c: EditorConfig)
        ensures
            c.gutters.layout@ == seq![GutterElement::Spacer, GutterElement::LineNumbers],
            c.gutters.line_numbers == Some(LineNumbersConfig::default_spec()),
            c.status_bar.left@ == seq![StatusBarItem::Mode],
            c.status_bar.center@ == Seq::<StatusBarItem>::empty(),
            c.status_bar.right@ == seq![
                StatusBarItem::CursorPosition,
                StatusBarItem::LineCount,
                StatusBarItem::Language,
            ],
            c.status_bar.mode.normal@ == "Normal"@,
            c.status_bar.mode.insert@ == "Insert"@,
            c.cursor.normal == CursorShape::Block,
            c.cursor.insert == CursorShape::Bar,
    {
        EditorConfig {
            gutters: GuttersConfig::default(),
            status_bar: StatusBarConfig::default(),
            cursor: CursorConfig::default(),
        }
    }
}

impl Default for Config {
    /// The default look, and no key bindings.
    fn default() -> (c: Config)
        ensures
            c.editor.gutters.layout@ == seq![GutterElement::Spacer, GutterElement::LineNumbers],
            c.editor.gutters.line_numbers == Some(LineNumbersConfig::default_spec()),
            c.editor.status_bar.left@ == seq![StatusBarItem::Mode],
            c.editor.status_bar.center@ == Seq::<StatusBarItem>::empty(),
            c.editor.status_bar.right@ == seq![
                StatusBarItem::CursorPosition,
                StatusBarItem::LineCount,
                StatusBarItem::Language,
            ],
            c.editor.status_bar.mode.normal@ == "Normal"@,
            c.editor.status_bar.mode.insert@ == "Insert"@,
            c.editor.cursor.normal == CursorShape::Block,
            c.editor.cursor.insert == CursorShape::Bar,
            c.keymap.normal@ == Map::<String, StringOrNestedMap>::empty(),
            c.keymap.insert@ == Map::<String, StringOrNestedMap>::empty(),
    {
        Config { editor: EditorConfig::default(), keymap: KeymapConfig::default() }
    }
}

} // verus!
