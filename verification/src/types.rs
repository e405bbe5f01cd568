//! The screen model: sizes, colours, cells, screens and the records of change.
use vstd::prelude::*;
use vstd::string::StringExecFns;
use crate::emulator::{CellData, RawCell, RawColor};
use crate::text::{decimal_digits, hex_byte, push_decimal, push_hex_byte};

verus! {

/// Terminal dimensions.
#[derive(Debug, Clone, Copy, PartialEq, Eq, Structural)]
pub struct Size {
    pub cols: u16,
    pub rows: u16,
}

impl Size {
    /// A size is valid when it has at least one column and one row.
    pub open spec fn valid(self) -> bool {
        self.cols >= 1 && self.rows >= 1
    }
}

impl Default for Size {
    fn default() -> (s: Self)
        ensures
            s == (Size { cols: 80, rows: 24 }),
    {
        Size { cols: 80, rows: 24 }
    }
}

/// Cursor position, zero-indexed.
#[derive(Debug, Clone, Copy, PartialEq, Eq, Structural)]
pub struct CursorPosition {
    pub row: u16,
    pub col: u16,
}

impl CursorPosition {
    /// The position lies on a grid of the given size.
    pub open spec fn within(self, size: Size) -> bool {
        self.row < size.rows && self.col < size.cols
    }
}

impl Default for CursorPosition {
    fn default() -> (p: Self)
        ensures
            p == (CursorPosition { row: 0, col: 0 }),
    {
        CursorPosition { row: 0, col: 0 }
    }
}

/// Cursor shape variants.
#[derive(Debug, Clone, Copy, PartialEq, Eq, Structural)]
pub enum CursorShape {
    Block,
    Underline,
    Bar,
}

impl Default for CursorShape {
    fn default() -> (s: Self)
        ensures
            s == CursorShape::Block,
    {
        CursorShape::Block
    }
}

/// Cursor state.
#[derive(Debug, Clone, Copy, PartialEq, Eq, Structural)]
pub struct Cursor {
    pub position: CursorPosition,
    pub visible: bool,
    pub shape: CursorShape,
}

impl Default for Cursor {
    fn default() -> (c: Self)
        ensures
            c == (Cursor {
                position: CursorPosition { row: 0, col: 0 },
                visible: true,
                shape: CursorShape::Block,
            }),
    {
        Cursor { position: CursorPosition { row: 0, col: 0 }, visible: true, shape: CursorShape::Block }
    }
}

/// RGB color.
#[derive(Debug, Clone, Copy, PartialEq, Eq, Structural)]
pub struct Color {
    pub r: u8,
    pub g: u8,
    pub b: u8,
}

/// The sixteen standard colours of the palette, by index.
pub open spec fn standard_color(idx: u8) -> Color {
    if idx == 0 {
        Color { r: 0, g: 0, b: 0 }
    } else if idx == 1 {
        Color { r: 205, g: 49, b: 49 }
    } else if idx == 2 {
        Color { r: 13, g: 188, b: 121 }
    } else if idx == 3 {
        Color { r: 229, g: 229, b: 16 }
    } else if idx == 4 {
        Color { r: 36, g: 114, b: 200 }
    } else if idx == 5 {
        Color { r: 188, g: 63, b: 188 }
    } else if idx == 6 {
        Color { r: 17, g: 168, b: 205 }
    } else if idx == 7 {
        Color { r: 229, g: 229, b: 229 }
    } else if idx == 8 {
        Color { r: 102, g: 102, b: 102 }
    } else if idx == 9 {
        Color { r: 241, g: 76, b: 76 }
    } else if idx == 10 {
        Color { r: 35, g: 209, b: 139 }
    } else if idx == 11 {
        Color { r: 245, g: 245, b: 67 }
    } else if idx == 12 {
        Color { r: 59, g: 142, b: 234 }
    } else if idx == 13 {
        Color { r: 214, g: 112, b: 214 }
    } else if idx == 14 {
        Color { r: 41, g: 184, b: 219 }
    } else {
        Color { r: 255, g: 255, b: 255 }
    }
}

/// The RGB value of an entry of the 256-colour palette: sixteen standard
/// colours, then a 6x6x6 colour cube whose channels step by 51, then a ramp
/// of 24 greys that starts at 8 and steps by 10.
pub open spec fn indexed_color(idx: u8) -> Color {
    if idx < 16 {
        standard_color(idx)
    } else if idx < 232 {
        let n = idx - 16;
        Color {
            r: (((n / 36) % 6) * 51) as u8,
            g: (((n / 6) % 6) * 51) as u8,
            b: ((n % 6) * 51) as u8,
        }
    } else {
        let gray = ((idx - 232) * 10 + 8) as u8;
        Color { r: gray, g: gray, b: gray }
    }
}

/// The colour a cell shows: the emulator's colour resolved to RGB, with
/// `default` standing in where the emulator names no colour.
pub open spec fn resolved_color(c: RawColor, default: Color) -> Color {
    match c {
        RawColor::Default => default,
        RawColor::Idx(i) => indexed_color(i),
        RawColor::Rgb(r, g, b) => Color { r, g, b },
    }
}

/// Convert 256-color index to RGB.
pub fn idx_to_color(idx: u8) -> (c: Color)
    ensures
        c == indexed_color(idx),
{
    match idx {
        0 => Color::new(0, 0, 0),
        1 => Color::new(205, 49, 49),
        2 => Color::new(13, 188, 121),
        3 => Color::new(229, 229, 16),
        4 => Color::new(36, 114, 200),
        5 => Color::new(188, 63, 188),
        6 => Color::new(17, 168, 205),
        7 => Color::new(229, 229, 229),
        8 => Color::new(102, 102, 102),
        9 => Color::new(241, 76, 76),
        10 => Color::new(35, 209, 139),
        11 => Color::new(245, 245, 67),
        12 => Color::new(59, 142, 234),
        13 => Color::new(214, 112, 214),
        14 => Color::new(41, 184, 219),
        15 => Color::new(255, 255, 255),
        16..=231 => {
            let n: u8 = idx - 16;
            let r: u8 = ((n / 36) % 6) * 51;
            let g: u8 = ((n / 6) % 6) * 51;
            let b: u8 = (n % 6) * 51;
            Color::new(r, g, b)
        },
        232..=255 => {
            let gray: u8 = (idx - 232) * 10 + 8;
            Color::new(gray, gray, gray)
        },
    }
}

impl Color {
    pub fn new(r: u8, g: u8, b: u8) -> (c: Self)
        ensures
            c == (Color { r, g, b }),
    {
        Self { r, g, b }
    }

    /// The CSS functional notation of the colour.
    pub open spec fn css(self) -> Seq<char> {
        "rgb("@ + decimal_digits(self.r as nat) + ", "@ + decimal_digits(self.g as nat) + ", "@
            + decimal_digits(self.b as nat) + ")"@
    }

    /// The colour as `#rrggbb`, in lower-case hexadecimal.
    pub open spec fn hex(self) -> Seq<char> {
        "#"@ + hex_byte(self.r) + hex_byte(self.g) + hex_byte(self.b)
    }

    pub fn to_css(&self) -> (s: String)
        ensures
            s@ == self.css(),
    {
        let mut s = String::from_str("rgb(");
        push_decimal(&mut s, self.r);
        s.append(", ");
        push_decimal(&mut s, self.g);
        s.append(", ");
        push_decimal(&mut s, self.b);
        s.append(")");
        s
    }

    pub fn to_hex(&self) -> (s: String)
        ensures
            s@ == self.hex(),
    {
        let mut s = String::from_str("#");
        push_hex_byte(&mut s, self.r);
        push_hex_byte(&mut s, self.g);
        push_hex_byte(&mut s, self.b);
        s
    }

    /// Resolve a colour of the emulator to RGB.
    pub fn from_vt100(c: RawColor, default: Color) -> (out: Self)
        ensures
            out == resolved_color(c, default),
    {
        match c {
            RawColor::Default => default,
            RawColor::Idx(i) => idx_to_color(i),
            RawColor::Rgb(r, g, b) => Color::new(r, g, b),
        }
    }
}

/// Cell attributes (bold, italic, etc.).
#[derive(Debug, Clone, Copy, PartialEq, Eq, Structural)]
pub struct CellAttributes {
    pub bold: bool,
    pub italic: bool,
    pub underline: bool,
    pub strikethrough: bool,
    pub inverse: bool,
    pub dim: bool,
    pub blink: bool,
}

impl CellAttributes {
    /// No attribute set.
    pub open spec fn plain() -> CellAttributes {
        CellAttributes {
            bold: false,
            italic: false,
            underline: false,
            strikethrough: false,
            inverse: false,
            dim: false,
            blink: false,
        }
    }

    /// The attributes the emulator tracks for a cell; the others stay off.
    pub open spec fn of(cell: CellData) -> CellAttributes {
        CellAttributes {
            bold: cell.bold,
            italic: cell.italic,
            underline: cell.underline,
            strikethrough: false,
            inverse: cell.inverse,
            dim: false,
            blink: false,
        }
    }

    /// Create from a cell of the emulator.
    pub fn from_vt100_cell(cell: &RawCell) -> (attrs: Self)
        ensures
            attrs == CellAttributes::of(cell@),
    {
        Self {
            bold: cell.bold,
            italic: cell.italic,
            underline: cell.underline,
            strikethrough: false,
            inverse: cell.inverse,
            dim: false,
            blink: false,
        }
    }
}

impl Default for CellAttributes {
    fn default() -> (attrs: Self)
        ensures
            attrs == CellAttributes::plain(),
    {
        Self {
            bold: false,
            italic: false,
            underline: false,
            strikethrough: false,
            inverse: false,
            dim: false,
            blink: false,
        }
    }
}

/// A single terminal cell.
#[derive(Debug)]
pub struct Cell {
    pub char: String,
    pub fg: Color,
    pub bg: Color,
    pub attrs: CellAttributes,
}

/// What a cell shows.
pub struct CellView {
    pub text: Seq<char>,
    pub fg: Color,
    pub bg: Color,
    pub attrs: CellAttributes,
}

/// The foreground of a cell that names no colour: white.
pub open spec fn default_foreground() -> Color {
    Color { r: 255, g: 255, b: 255 }
}

/// The background of a cell that names no colour: black.
pub open spec fn default_background() -> Color {
    Color { r: 0, g: 0, b: 0 }
}

impl CellView {
    /// The default cell: a space, white on black, no attributes.
    pub open spec fn blank() -> CellView {
        CellView {
            text: seq![' '],
            fg: default_foreground(),
            bg: default_background(),
            attrs: CellAttributes::plain(),
        }
    }

    /// A cell of the emulator as the screen shows it: its text, its colours
    /// resolved to RGB (white on black where it names none), its attributes.
    pub open spec fn of(cell: CellData) -> CellView {
        CellView {
            text: cell.text,
            fg: resolved_color(cell.fg, default_foreground()),
            bg: resolved_color(cell.bg, default_background()),
            attrs: CellAttributes::of(cell),
        }
    }
}

impl View for Cell {
    type V = CellView;

    open spec fn view(&self) -> CellView {
        CellView { text: self.char@, fg: self.fg, bg: self.bg, attrs: self.attrs }
    }
}

impl DeepView for Cell {
    type V = CellView;

    open spec fn deep_view(&self) -> CellView {
        self@
    }
}

impl Clone for Cell {
    fn clone(&self) -> (c: Self)
        ensures
            c@ == self@,
    {
        Cell { char: self.char.clone(), fg: self.fg, bg: self.bg, attrs: self.attrs }
    }
}

impl Cell {
    /// Whether two cells show the same: text, colours and attributes.
    pub fn same(&self, other: &Cell) -> (same: bool)
        ensures
            same == (self@ == other@),
    {
        self.char == other.char && self.fg == other.fg && self.bg == other.bg && self.attrs
            == other.attrs
    }
}

impl Default for Cell {
    fn default() -> (c: Self)
        ensures
            c@ == CellView::blank(),
    {
        proof {
            reveal_strlit(" ");
        }
        let c = Cell {
            char: String::from_str(" "),
            fg: Color::new(255, 255, 255),
            bg: Color::new(0, 0, 0),
            attrs: CellAttributes::default(),
        };
        assert(c.char@ =~= seq![' ']);
        c
    }
}

/// A row of cells.
pub type Row = Vec<Cell>;

/// The entire screen buffer.
#[derive(Debug)]
pub struct Screen {
    pub cells: Vec<Row>,
    pub cursor: Cursor,
    pub size: Size,
    pub scrollback_len: u32,
    pub title: String,
}

/// What a screen shows.
pub struct ScreenView {
    pub cells: Seq<Seq<CellView>>,
    pub cursor: Cursor,
    pub size: Size,
    pub scrollback_len: u32,
    pub title: Seq<char>,
}

impl ScreenView {
    /// The grid has `size.rows` rows of `size.cols` cells each, and the
    /// cursor lies on it.
    pub open spec fn wf(self) -> bool {
        &&& self.size.valid()
        &&& self.cells.len() == self.size.rows
        &&& forall|r: int| 0 <= r < self.cells.len() ==> (#[trigger] self.cells[r]).len() == self.size.cols
        &&& self.cursor.position.within(self.size)
    }
}

impl View for Screen {
    type V = ScreenView;

    open spec fn view(&self) -> ScreenView {
        ScreenView {
            cells: self.cells.deep_view(),
            cursor: self.cursor,
            size: self.size,
            scrollback_len: self.scrollback_len,
            title: self.title@,
        }
    }
}

impl DeepView for Screen {
    type V = ScreenView;

    open spec fn deep_view(&self) -> ScreenView {
        self@
    }
}

/// A change to a single cell (for incremental updates).
#[derive(Debug)]
pub struct CellChange {
    pub row: u16,
    pub col: u16,
    pub cell: Cell,
}

/// A point mutation of the grid.
pub struct CellChangeView {
    pub row: u16,
    pub col: u16,
    pub cell: CellView,
}

impl View for CellChange {
    type V = CellChangeView;

    open spec fn view(&self) -> CellChangeView {
        CellChangeView { row: self.row, col: self.col, cell: self.cell@ }
    }
}

impl DeepView for CellChange {
    type V = CellChangeView;

    open spec fn deep_view(&self) -> CellChangeView {
        self@
    }
}

impl Clone for CellChange {
    fn clone(&self) -> (c: Self)
        ensures
            c@ == self@,
    {
        CellChange { row: self.row, col: self.col, cell: self.cell.clone() }
    }
}

/// Incremental screen update.
#[derive(Debug)]
pub struct ScreenUpdate {
    pub session_id: String,
    pub changes: Vec<CellChange>,
    pub cursor: Cursor,
    pub title: Option<String>,
}

/// What a screen update carries.
pub struct ScreenUpdateView {
    pub session_id: Seq<char>,
    pub changes: Seq<CellChangeView>,
    pub cursor: Cursor,
    pub title: Option<Seq<char>>,
}

impl View for ScreenUpdate {
    type V = ScreenUpdateView;

    open spec fn view(&self) -> ScreenUpdateView {
        ScreenUpdateView {
            session_id: self.session_id@,
            changes: self.changes.deep_view(),
            cursor: self.cursor,
            title: self.title.deep_view(),
        }
    }
}

impl DeepView for ScreenUpdate {
    type V = ScreenUpdateView;

    open spec fn deep_view(&self) -> ScreenUpdateView {
        self@
    }
}

impl Clone for ScreenUpdate {
    fn clone(&self) -> (u: Self)
        ensures
            u@ == self@,
    {
        let changes = self.changes.clone();
        let title = self.title.clone();
        ScreenUpdate { session_id: self.session_id.clone(), changes, cursor: self.cursor, title }
    }
}

/// The kinds of shell-integration mark.
#[derive(Debug, Clone, Copy, PartialEq, Eq, Structural)]
pub enum MarkType {
    PromptStart,
    CommandStart,
    CommandEnd,
}

/// Shell integration mark.
#[derive(Debug)]
pub struct Mark {
    pub row: u32,
    pub timestamp: u64,
    pub mark_type: MarkType,
    pub command: Option<String>,
    pub exit_code: Option<i32>,
}

/// What a mark records.
pub struct MarkView {
    pub row: u32,
    pub timestamp: u64,
    pub mark_type: MarkType,
    pub command: Option<Seq<char>>,
    pub exit_code: Option<i32>,
}

impl View for Mark {
    type V = MarkView;

    open spec fn view(&self) -> MarkView {
        MarkView {
            row: self.row,
            timestamp: self.timestamp,
            mark_type: self.mark_type,
            command: self.command.deep_view(),
            exit_code: self.exit_code,
        }
    }
}

impl DeepView for Mark {
    type V = MarkView;

    open spec fn deep_view(&self) -> MarkView {
        self@
    }
}

impl Clone for Mark {
    fn clone(&self) -> (m: Self)
        ensures
            m@ == self@,
    {
        Mark {
            row: self.row,
            timestamp: self.timestamp,
            mark_type: self.mark_type,
            command: self.command.clone(),
            exit_code: self.exit_code,
        }
    }
}

} // verus!
