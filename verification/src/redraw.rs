//! Drawing a screen anew: the bytes that make a new parser show what
//! another one showed.
//!
//! The bytes are ordinary terminal output. Each cell is drawn by a move of
//! the cursor to its position, a choice of style and its text.
use vstd::prelude::*;
use vstd::string::StringSliceAdditionalSpecFns;
use vstd::utf8::encode_utf8;
use crate::emulator::{CellData, RawCell, RawColor};
use crate::text::{decimal_bytes, push_decimal_bytes};

verus! {

/// The sequence that moves the cursor to a position; rows and columns are
/// counted from one on the wire.
pub open spec fn goto_bytes(row: u16, col: u16) -> Seq<u8> {
    seq![0x1bu8, 0x5bu8] + decimal_bytes((row + 1) as nat) + seq![0x3bu8] + decimal_bytes(
        (col + 1) as nat,
    ) + seq![0x48u8]
}

/// The parameters that choose a colour for a layer, 38 for the foreground
/// and 48 for the background: none for the default colour, an index of the
/// palette, or red, green and blue.
pub open spec fn color_bytes(layer: u16, color: RawColor) -> Seq<u8> {
    match color {
        RawColor::Default => Seq::empty(),
        RawColor::Idx(i) => seq![0x3bu8] + decimal_bytes(layer as nat) + seq![0x3bu8, 0x35u8, 0x3bu8]
            + decimal_bytes(i as nat),
        RawColor::Rgb(r, g, b) => seq![0x3bu8] + decimal_bytes(layer as nat) + seq![
            0x3bu8,
            0x32u8,
            0x3bu8,
        ] + decimal_bytes(r as nat) + seq![0x3bu8] + decimal_bytes(g as nat) + seq![0x3bu8]
            + decimal_bytes(b as nat),
    }
}

/// The parameter that switches an attribute on, if it is on.
pub open spec fn flag_bytes(on: bool, code: u8) -> Seq<u8> {
    if on {
        seq![0x3bu8, code]
    } else {
        Seq::empty()
    }
}

/// The parameters that switch on the attributes a cell has: bold, italic,
/// underline and inverse, in this order.
pub open spec fn flags_bytes(cell: CellData) -> Seq<u8> {
    flag_bytes(cell.bold, 0x31) + flag_bytes(cell.italic, 0x33) + flag_bytes(cell.underline, 0x34)
        + flag_bytes(cell.inverse, 0x37)
}

/// The parameters that choose the colours of a cell: foreground, then
/// background.
pub open spec fn colors_bytes(cell: CellData) -> Seq<u8> {
    color_bytes(38, cell.fg) + color_bytes(48, cell.bg)
}

/// The sequence that chooses the style of a cell: everything reset, then
/// the attributes the cell has, then its colours.
pub open spec fn style_bytes(cell: CellData) -> Seq<u8> {
    seq![0x1bu8, 0x5bu8, 0x30u8] + flags_bytes(cell) + colors_bytes(cell) + seq![0x6du8]
}

/// The bytes that draw a cell at a position.
pub open spec fn cell_bytes(row: u16, col: u16, cell: CellData) -> Seq<u8> {
    goto_bytes(row, col) + style_bytes(cell) + encode_utf8(cell.text)
}

/// Whether a cell is drawn on a grid of `grid_cols` columns: it has text, it
/// is not the second half of a wide character, and a wide character has
/// three columns before it. The emulator wraps a character that is three
/// columns wide unless it has that room, and a cell does not tell whether
/// its character is two columns wide or three.
pub open spec fn is_drawn(cell: CellData, col: u16, grid_cols: u16) -> bool {
    cell.text.len() > 0 && !cell.continuation && (!cell.wide || col + 2 < grid_cols)
}

/// The sequence that resets the style.
pub open spec fn reset_bytes() -> Seq<u8> {
    seq![0x1bu8, 0x5bu8, 0x30u8, 0x6du8]
}

/// The sequence that hides the cursor, if it is to be hidden.
pub open spec fn hide_bytes(hidden: bool) -> Seq<u8> {
    if hidden {
        seq![0x1bu8, 0x5bu8, 0x3fu8, 0x32u8, 0x35u8, 0x6cu8]
    } else {
        Seq::empty()
    }
}

/// Appends the sequence that moves the cursor to a position.
pub fn push_goto(out: &mut Vec<u8>, row: u16, col: u16)
    requires
        row < u16::MAX,
        col < u16::MAX,
    ensures
        final(out)@ == old(out)@ + goto_bytes(row, col),
{
    out.push(0x1b);
    out.push(0x5b);
    push_decimal_bytes(out, row + 1);
    out.push(0x3b);
    push_decimal_bytes(out, col + 1);
    out.push(0x48);
}

/// Appends the parameters that choose a colour for a layer.
pub fn push_color(out: &mut Vec<u8>, layer: u16, color: RawColor)
    ensures
        final(out)@ == old(out)@ + color_bytes(layer, color),
{
    match color {
        RawColor::Default => {},
        RawColor::Idx(i) => {
            out.push(0x3b);
            push_decimal_bytes(out, layer);
            out.push(0x3b);
            out.push(0x35);
            out.push(0x3b);
            push_decimal_bytes(out, i as u16);
            assert(out@ =~= old(out)@ + color_bytes(layer, color));
        },
        RawColor::Rgb(r, g, b) => {
            out.push(0x3b);
            push_decimal_bytes(out, layer);
            out.push(0x3b);
            out.push(0x32);
            out.push(0x3b);
            push_decimal_bytes(out, r as u16);
            out.push(0x3b);
            push_decimal_bytes(out, g as u16);
            out.push(0x3b);
            push_decimal_bytes(out, b as u16);
        },
    }
}

fn push_flag(out: &mut Vec<u8>, on: bool, code: u8)
    ensures
        final(out)@ == old(out)@ + flag_bytes(on, code),
{
    if on {
        out.push(0x3b);
        out.push(code);
    }
}

fn push_flags(out: &mut Vec<u8>, cell: &RawCell)
    ensures
        final(out)@ == old(out)@ + flags_bytes(cell@),
{
    push_flag(out, cell.bold, 0x31);
    push_flag(out, cell.italic, 0x33);
    push_flag(out, cell.underline, 0x34);
    push_flag(out, cell.inverse, 0x37);
    assert(out@ =~= old(out)@ + flags_bytes(cell@));
}

fn push_colors(out: &mut Vec<u8>, cell: &RawCell)
    ensures
        final(out)@ == old(out)@ + colors_bytes(cell@),
{
    push_color(out, 38, cell.fg);
    push_color(out, 48, cell.bg);
    assert(out@ =~= old(out)@ + colors_bytes(cell@));
}

/// Appends the sequence that chooses the style of a cell.
pub fn push_style(out: &mut Vec<u8>, cell: &RawCell)
    ensures
        final(out)@ == old(out)@ + style_bytes(cell@),
{
    out.push(0x1b);
    out.push(0x5b);
    out.push(0x30);
    push_flags(out, cell);
    push_colors(out, cell);
    out.push(0x6d);
    assert(out@ =~= old(out)@ + style_bytes(cell@));
}

/// Appends a piece of text, encoded as UTF-8.
pub fn push_text(out: &mut Vec<u8>, text: &str)
    ensures
        final(out)@ == old(out)@ + encode_utf8(text@),
{
    let bytes = text.as_bytes();
    let mut i: usize = 0;
    while i < bytes.len()
        invariant
            i <= bytes@.len(),
            bytes@ == encode_utf8(text@),
            out@ == old(out)@ + bytes@.subrange(0, i as int),
        decreases bytes@.len() - i,
    {
        out.push(bytes[i]);
        i = i + 1;
    }
}

/// Appends the bytes that draw a cell at a position.
pub fn push_cell(out: &mut Vec<u8>, row: u16, col: u16, cell: &RawCell)
    requires
        row < u16::MAX,
        col < u16::MAX,
    ensures
        final(out)@ == old(out)@ + cell_bytes(row, col, cell@),
{
    push_goto(out, row, col);
    push_style(out, cell);
    push_text(out, cell.text.as_str());
}

/// Appends the sequence that resets the style.
pub fn push_reset(out: &mut Vec<u8>)
    ensures
        final(out)@ == old(out)@ + reset_bytes(),
{
    out.push(0x1b);
    out.push(0x5b);
    out.push(0x30);
    out.push(0x6d);
}

/// Appends the sequence that hides the cursor, if it is to be hidden.
pub fn push_hide(out: &mut Vec<u8>, hidden: bool)
    ensures
        final(out)@ == old(out)@ + hide_bytes(hidden),
{
    if hidden {
        out.push(0x1b);
        out.push(0x5b);
        out.push(0x3f);
        out.push(0x32);
        out.push(0x35);
        out.push(0x6c);
    }
}

/// The sequence that leaves the alternate screen, without restoring a
/// cursor.
pub open spec fn leave_alternate_bytes() -> Seq<u8> {
    seq![0x1bu8, 0x5bu8, 0x3fu8, 0x34u8, 0x37u8, 0x6cu8]
}

/// The sequence that enters the alternate screen, without clearing it.
pub open spec fn enter_alternate_bytes() -> Seq<u8> {
    seq![0x1bu8, 0x5bu8, 0x3fu8, 0x34u8, 0x37u8, 0x68u8]
}

/// The sequence that saves the cursor.
pub open spec fn save_cursor_bytes() -> Seq<u8> {
    seq![0x1bu8, 0x37u8]
}

/// The sequence that leaves the alternate screen.
pub fn leave_alternate() -> (bytes: Vec<u8>)
    ensures
        bytes@ == leave_alternate_bytes(),
{
    let mut bytes: Vec<u8> = Vec::new();
    bytes.push(0x1b);
    bytes.push(0x5b);
    bytes.push(0x3f);
    bytes.push(0x34);
    bytes.push(0x37);
    bytes.push(0x6c);
    bytes
}

/// Appends the sequence that enters the alternate screen.
pub fn push_enter_alternate(out: &mut Vec<u8>)
    ensures
        final(out)@ == old(out)@ + enter_alternate_bytes(),
{
    out.push(0x1b);
    out.push(0x5b);
    out.push(0x3f);
    out.push(0x34);
    out.push(0x37);
    out.push(0x68);
}

/// Appends the sequence that saves the cursor.
pub fn push_save_cursor(out: &mut Vec<u8>)
    ensures
        final(out)@ == old(out)@ + save_cursor_bytes(),
{
    out.push(0x1b);
    out.push(0x37);
}

/// Appends bytes as they are.
pub fn push_bytes(out: &mut Vec<u8>, bytes: &Vec<u8>)
    ensures
        final(out)@ == old(out)@ + bytes@,
{
    let mut i: usize = 0;
    while i < bytes.len()
        invariant
            i <= bytes@.len(),
            out@ == old(out)@ + bytes@.subrange(0, i as int),
        decreases bytes@.len() - i,
    {
        out.push(bytes[i]);
        i = i + 1;
    }
    assert(bytes@.subrange(0, i as int) =~= bytes@);
}

} // verus!
