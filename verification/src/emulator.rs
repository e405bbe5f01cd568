//! The boundary to the `vt100` screen emulator.
//!
//! The emulator interprets the escape-sequence protocol; nothing of it is
//! proved here. This module declares its parser type, names what the parser
//! holds, and wraps the calls the engine makes. Each wrapper's contract is
//! taken on trust from the emulator's source; everything else in the crate is
//! proved against these contracts.
use vstd::prelude::*;

verus! {

/// `vt100::Parser`: the escape-sequence parser together with the screen it
/// draws on. Its inside is not visible to the verifier.
#[verifier::external_type_specification]
#[verifier::external_body]
pub struct ExParser(vt100::Parser);

/// A colour as the emulator reports it, before it is resolved to RGB.
#[derive(Debug, Clone, Copy, PartialEq, Eq, Structural)]
pub enum RawColor {
    /// The terminal's default colour.
    Default,
    /// An entry of the 256-colour palette.
    Idx(u8),
    /// A 24-bit colour: red, green, blue.
    Rgb(u8, u8, u8),
}

/// One cell of the emulator's grid, as plain values.
#[derive(Debug)]
pub struct RawCell {
    pub text: String,
    pub fg: RawColor,
    pub bg: RawColor,
    pub bold: bool,
    pub italic: bool,
    pub underline: bool,
    pub inverse: bool,
    /// The cell holds a character that is more than one column wide.
    pub wide: bool,
    /// The cell is the second half of a wide character.
    pub continuation: bool,
}

/// What a grid cell holds.
pub struct CellData {
    pub text: Seq<char>,
    pub fg: RawColor,
    pub bg: RawColor,
    pub bold: bool,
    pub italic: bool,
    pub underline: bool,
    pub inverse: bool,
    pub wide: bool,
    pub continuation: bool,
}

impl CellData {
    /// A cell nothing was written to.
    pub open spec fn blank() -> CellData {
        CellData {
            text: Seq::empty(),
            fg: RawColor::Default,
            bg: RawColor::Default,
            bold: false,
            italic: false,
            underline: false,
            inverse: false,
            wide: false,
            continuation: false,
        }
    }
}

impl View for RawCell {
    type V = CellData;

    open spec fn view(&self) -> CellData {
        CellData {
            text: self.text@,
            fg: self.fg,
            bg: self.bg,
            bold: self.bold,
            italic: self.italic,
            underline: self.underline,
            inverse: self.inverse,
            wide: self.wide,
            continuation: self.continuation,
        }
    }
}

/// The fewest rows the emulator can work with: on a single row it fails
/// when text wraps.
pub const MIN_GRID_ROWS: u16 = 2;

/// The fewest columns the emulator can work with. It takes the width of a
/// character, which is up to three columns, from the columns of the grid,
/// and fails where the grid has fewer.
pub const MIN_GRID_COLS: u16 = 3;

/// The most columns the emulator can work with: beyond, its next tab stop
/// leaves the range of its column counter.
pub const MAX_GRID_COLS: u16 = 65527;

/// The emulator can work with a grid of these dimensions.
pub open spec fn grid_fits(rows: u16, cols: u16) -> bool {
    rows >= MIN_GRID_ROWS && MIN_GRID_COLS <= cols <= MAX_GRID_COLS
}

/// A new parser with a grid of `rows` by `cols` cells that keeps up to
/// `history` rows of history.
pub uninterp spec fn blank_parser(rows: u16, cols: u16, history: usize) -> vt100::Parser;

/// The parser after it has consumed `bytes`.
pub uninterp spec fn fed(before: vt100::Parser, bytes: Seq<u8>) -> vt100::Parser;

/// The parser after its grid was given `rows` rows and `cols` columns.
pub uninterp spec fn resized(before: vt100::Parser, rows: u16, cols: u16) -> vt100::Parser;

/// The dimensions of the parser's grid: rows, then columns.
pub uninterp spec fn screen_size(p: vt100::Parser) -> (u16, u16);

/// The cells of the grid in view, by row and column.
pub uninterp spec fn screen_cells(p: vt100::Parser) -> Map<(u16, u16), CellData>;

/// The cursor's row and column.
pub uninterp spec fn cursor_of(p: vt100::Parser) -> (u16, u16);

/// Whether the application asked for the cursor to be hidden.
pub uninterp spec fn cursor_hidden(p: vt100::Parser) -> bool;

/// The window title the application set last.
pub uninterp spec fn title_of(p: vt100::Parser) -> Seq<char>;

/// The parser after the view was moved `rows` rows back into the history.
pub uninterp spec fn scrolled(before: vt100::Parser, rows: usize) -> vt100::Parser;

/// The bytes that set the drawing attributes in force: the style reset,
/// then the colours and attributes that text written next is to have.
pub uninterp spec fn attributes_of(p: vt100::Parser) -> Seq<u8>;

/// Whether the alternate screen is in use.
pub uninterp spec fn alternate_screen(p: vt100::Parser) -> bool;

/// The bytes that set the input modes the parser is in: application keypad,
/// application cursor, bracketed paste and the mouse protocol.
pub uninterp spec fn input_modes_of(p: vt100::Parser) -> Seq<u8>;

/// How far the view is scrolled back into the history: 0 while the live
/// screen is in view.
pub uninterp spec fn scrollback_of(p: vt100::Parser) -> usize;

/// The rows of history that the parser was made to keep at most.
pub uninterp spec fn history_limit(p: vt100::Parser) -> usize;

/// The rows of history that the parser keeps at the moment.
pub uninterp spec fn history_len(p: vt100::Parser) -> usize;

/// A counter that moves whenever an audible bell is received.
pub uninterp spec fn bell_count(p: vt100::Parser) -> usize;

/// `vt100::Parser::new`. A new parser has the dimensions asked for, the
/// cursor in the top left corner and visible, no title, the live screen in
/// view, no history, and a grid of blank cells.
#[verifier::external_body]
pub(crate) fn emulator_new(rows: u16, cols: u16, history: usize) -> (p: vt100::Parser)
    requires
        grid_fits(rows, cols),
    ensures
        p == blank_parser(rows, cols, history),
        screen_size(p) == (rows, cols),
        cursor_of(p) == (0u16, 0u16),
        !cursor_hidden(p),
        title_of(p) == Seq::<char>::empty(),
        scrollback_of(p) == 0,
        history_limit(p) == history,
        history_len(p) == 0,
        forall|r: u16, c: u16|
            r < rows && c < cols ==> #[trigger] screen_cells(p)[(r, c)] == CellData::blank(),
{
    vt100::Parser::new(rows, cols, history)
}

/// `vt100::Parser::process`. The parser takes the bytes one by one, so no
/// bytes leave it as it was. Processing changes neither the grid's
/// dimensions nor the limit of the history, and it does not scroll the view
/// away from the live screen.
///
/// The emulator relies on its cursor, its saved cursor and its wide
/// characters lying on the grid. It keeps them there as long as the grid
/// fits its bounds and never shrinks; the engine makes every parser with
/// `emulator_new`, and the one wrapper that resizes a parser,
/// `emulator_set_size`, only grows a grid.
#[verifier::external_body]
pub(crate) fn emulator_process(p: &mut vt100::Parser, bytes: &[u8])
    requires
        grid_fits(screen_size(*old(p)).0, screen_size(*old(p)).1),
    ensures
        *final(p) == fed(*old(p), bytes@),
        bytes@.len() == 0 ==> *final(p) == *old(p),
        screen_size(*final(p)) == screen_size(*old(p)),
        history_limit(*final(p)) == history_limit(*old(p)),
        scrollback_of(*old(p)) == 0 ==> scrollback_of(*final(p)) == 0,
{
    p.process(bytes)
}

/// `vt100::Parser::set_size`, for a grid that does not shrink. Afterwards
/// the grid has the dimensions asked for; title, cursor visibility, bell
/// counter, limit of the history and the position of the view stay as they
/// were.
///
/// A grid that shrinks is left out: the emulator then keeps a saved cursor
/// or half a wide character beyond the new bounds, and fails on them when it
/// processes output later.
#[verifier::external_body]
pub(crate) fn emulator_set_size(p: &mut vt100::Parser, rows: u16, cols: u16)
    requires
        grid_fits(rows, cols),
        grid_fits(screen_size(*old(p)).0, screen_size(*old(p)).1),
        rows >= screen_size(*old(p)).0,
        cols >= screen_size(*old(p)).1,
    ensures
        *final(p) == resized(*old(p), rows, cols),
        screen_size(*final(p)) == (rows, cols),
        title_of(*final(p)) == title_of(*old(p)),
        cursor_hidden(*final(p)) == cursor_hidden(*old(p)),
        bell_count(*final(p)) == bell_count(*old(p)),
        history_limit(*final(p)) == history_limit(*old(p)),
        scrollback_of(*final(p)) == scrollback_of(*old(p)),
{
    p.set_size(rows, cols)
}

/// `vt100::Screen::cell`, with the cell copied out as plain values. While
/// the live screen is in view there is a cell at every position inside the
/// grid, and none outside it.
#[verifier::external_body]
pub(crate) fn emulator_cell(p: &vt100::Parser, row: u16, col: u16) -> (cell: Option<RawCell>)
    requires
        scrollback_of(*p) == 0,
    ensures
        cell.is_some() == (row < screen_size(*p).0 && col < screen_size(*p).1),
        cell matches Some(c) ==> c@ == screen_cells(*p)[(row, col)],
{
    p.screen().cell(row, col).map(|c| RawCell {
        text: c.contents(),
        fg: match c.fgcolor() {
            vt100::Color::Default => RawColor::Default,
            vt100::Color::Idx(i) => RawColor::Idx(i),
            vt100::Color::Rgb(r, g, b) => RawColor::Rgb(r, g, b),
        },
        bg: match c.bgcolor() {
            vt100::Color::Default => RawColor::Default,
            vt100::Color::Idx(i) => RawColor::Idx(i),
            vt100::Color::Rgb(r, g, b) => RawColor::Rgb(r, g, b),
        },
        bold: c.bold(), italic: c.italic(), underline: c.underline(), inverse: c.inverse(),
        wide: c.is_wide(), continuation: c.is_wide_continuation(),
    })
}

/// `vt100::Screen::cursor_position`: row, then column.
#[verifier::external_body]
pub(crate) fn emulator_cursor(p: &vt100::Parser) -> (pos: (u16, u16))
    ensures
        pos == cursor_of(*p),
{
    p.screen().cursor_position()
}

/// `vt100::Screen::hide_cursor`.
#[verifier::external_body]
pub(crate) fn emulator_cursor_hidden(p: &vt100::Parser) -> (hidden: bool)
    ensures
        hidden == cursor_hidden(*p),
{
    p.screen().hide_cursor()
}

/// `vt100::Screen::title`, copied into an owned string.
#[verifier::external_body]
pub(crate) fn emulator_title(p: &vt100::Parser) -> (title: String)
    ensures
        title@ == title_of(*p),
{
    p.screen().title().to_string()
}

/// `vt100::Screen::audible_bell_count`.
#[verifier::external_body]
pub(crate) fn emulator_bell_count(p: &vt100::Parser) -> (n: usize)
    ensures
        n == bell_count(*p),
{
    p.screen().audible_bell_count()
}

/// `vt100::Screen::alternate_screen`.
#[verifier::external_body]
pub(crate) fn emulator_alternate_screen(p: &vt100::Parser) -> (alternate: bool)
    ensures
        alternate == alternate_screen(*p),
{
    p.screen().alternate_screen()
}

/// `vt100::Screen::attributes_formatted`.
#[verifier::external_body]
pub(crate) fn emulator_attributes(p: &vt100::Parser) -> (bytes: Vec<u8>)
    ensures
        bytes@ == attributes_of(*p),
{
    p.screen().attributes_formatted()
}

/// `vt100::Screen::input_mode_formatted`.
#[verifier::external_body]
pub(crate) fn emulator_input_modes(p: &vt100::Parser) -> (bytes: Vec<u8>)
    ensures
        bytes@ == input_modes_of(*p),
{
    p.screen().input_mode_formatted()
}

/// `vt100::Screen::scrollback`: how far the view is scrolled back.
#[verifier::external_body]
pub(crate) fn emulator_scrollback(p: &vt100::Parser) -> (rows: usize)
    ensures
        rows == scrollback_of(*p),
{
    p.screen().scrollback()
}

/// `vt100::Parser::set_scrollback`. The parser moves the view of the grid in
/// use and nothing else, and it holds the position to the number of rows
/// the history keeps, which is never more than the history's limit. So a
/// move back to where the view stood gives the parser back as it was.
#[verifier::external_body]
pub(crate) fn emulator_set_scrollback(p: &mut vt100::Parser, rows: usize)
    ensures
        *final(p) == scrolled(*old(p), rows),
        scrollback_of(*final(p)) == (if rows <= history_len(*old(p)) {
            rows
        } else {
            history_len(*old(p))
        }),
        history_len(*final(p)) == history_len(*old(p)),
        history_limit(*final(p)) == history_limit(*old(p)),
        history_len(*final(p)) <= history_limit(*final(p)),
        forall|q: vt100::Parser, at: usize|
            *old(p) == #[trigger] scrolled(q, at) && scrollback_of(q) == rows ==> *final(p) == q,
{
    p.set_scrollback(rows)
}

} // verus!
