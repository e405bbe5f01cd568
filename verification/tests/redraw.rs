use terminal_engine::emulator::{RawCell, RawColor};
use terminal_engine::redraw::{
    leave_alternate, push_bytes, push_cell, push_color, push_enter_alternate, push_goto,
    push_hide, push_reset, push_save_cursor, push_style, push_text,
};
use terminal_engine::terminal::{copy_frame, same_frame};
use terminal_engine::{Cell, CellChange, Color};
use terminal_engine::text::{
    chars_of, copy_text, digit_text, push_decimal, push_decimal_bytes, push_hex_byte, same_text,
};

fn plain_cell(text: &str) -> RawCell {
    RawCell {
        text: text.to_string(),
        fg: RawColor::Default,
        bg: RawColor::Default,
        bold: false,
        italic: false,
        underline: false,
        inverse: false,
        wide: false,
        continuation: false,
    }
}

#[test]
fn cursor_moves_count_from_one() {
    let mut out = b"x".to_vec();
    push_goto(&mut out, 0, 0);
    assert_eq!(out, b"x\x1b[1;1H");
    let mut out = Vec::new();
    push_goto(&mut out, 23, 79);
    assert_eq!(out, b"\x1b[24;80H");
    let mut out = Vec::new();
    push_goto(&mut out, 65534, 9);
    assert_eq!(out, b"\x1b[65535;10H");
}

#[test]
fn color_parameters() {
    let mut out = Vec::new();
    push_color(&mut out, 38, RawColor::Default);
    assert!(out.is_empty());
    push_color(&mut out, 38, RawColor::Idx(196));
    assert_eq!(out, b";38;5;196");
    let mut out = Vec::new();
    push_color(&mut out, 48, RawColor::Rgb(0, 10, 255));
    assert_eq!(out, b";48;2;0;10;255");
}

#[test]
fn style_sequences() {
    let mut out = Vec::new();
    push_style(&mut out, &plain_cell("a"));
    assert_eq!(out, b"\x1b[0m");
    let styled = RawCell {
        fg: RawColor::Idx(2),
        bg: RawColor::Rgb(1, 2, 3),
        bold: true,
        italic: true,
        underline: true,
        inverse: true,
        ..plain_cell("a")
    };
    let mut out = Vec::new();
    push_style(&mut out, &styled);
    assert_eq!(out, b"\x1b[0;1;3;4;7;38;5;2;48;2;1;2;3m");
    let mut out = Vec::new();
    push_style(&mut out, &RawCell { underline: true, ..plain_cell("a") });
    assert_eq!(out, b"\x1b[0;4m");
}

#[test]
fn a_cell_is_a_move_a_style_and_its_text() {
    let mut out = Vec::new();
    push_cell(&mut out, 2, 5, &RawCell { bold: true, ..plain_cell("\u{e9}") });
    assert_eq!(out, "\x1b[3;6H\x1b[0;1m\u{e9}".as_bytes());
}

#[test]
fn text_is_encoded_as_utf8() {
    let mut out = b">".to_vec();
    push_text(&mut out, "a\u{e9}\u{4e16}\u{1f600}");
    assert_eq!(out, ">a\u{e9}\u{4e16}\u{1f600}".as_bytes());
    push_text(&mut out, "");
    assert_eq!(out.len(), 11);
}

#[test]
fn reset_and_hide_sequences() {
    let mut out = Vec::new();
    push_reset(&mut out);
    assert_eq!(out, b"\x1b[0m");
    push_hide(&mut out, false);
    assert_eq!(out, b"\x1b[0m");
    push_hide(&mut out, true);
    assert_eq!(out, b"\x1b[0m\x1b[?25l");
}

#[test]
fn numbers_as_text() {
    for (n, text) in [(0u8, "0"), (7, "7"), (10, "10"), (99, "99"), (100, "100"), (255, "255")] {
        let mut out = String::from("n=");
        push_decimal(&mut out, n);
        assert_eq!(out, format!("n={}", text));
    }
    for (n, text) in [(0u16, "0"), (9, "9"), (10, "10"), (4096, "4096"), (65535, "65535")] {
        let mut out = Vec::new();
        push_decimal_bytes(&mut out, n);
        assert_eq!(out, text.as_bytes());
    }
    let mut out = String::new();
    push_hex_byte(&mut out, 0x0f);
    push_hex_byte(&mut out, 0xa0);
    assert_eq!(out, "0fa0");
    assert_eq!(digit_text(0), "0");
    assert_eq!(digit_text(9), "9");
    assert_eq!(digit_text(10), "a");
    assert_eq!(digit_text(15), "f");
}

#[test]
fn text_helpers() {
    assert!(same_text("abc", "abc"));
    assert!(!same_text("abc", "abd"));
    assert!(!same_text("abc", "ab"));
    assert!(same_text("", ""));
    assert_eq!(chars_of("a\u{e9}\u{4e16}"), vec!['a', '\u{e9}', '\u{4e16}']);
    assert!(chars_of("").is_empty());
    assert_eq!(copy_text(&Some("x".to_string())), Some("x".to_string()));
    assert_eq!(copy_text(&None), None);
}

#[test]
fn screen_switching_sequences() {
    assert_eq!(leave_alternate(), b"\x1b[?47l");
    let mut out = b"a".to_vec();
    push_enter_alternate(&mut out);
    assert_eq!(out, b"a\x1b[?47h");
    push_save_cursor(&mut out);
    assert_eq!(out, b"a\x1b[?47h\x1b7");
    push_bytes(&mut out, &b"xyz".to_vec());
    push_bytes(&mut out, &Vec::new());
    assert_eq!(out, b"a\x1b[?47h\x1b7xyz");
}

fn change(row: u16, col: u16, text: &str) -> CellChange {
    CellChange { row, col, cell: Cell { char: text.to_string(), ..Cell::default() } }
}

#[test]
fn cells_and_frames_are_compared_by_what_they_show() {
    let a = Cell::default();
    assert!(a.same(&Cell::default()));
    assert!(!a.same(&Cell { char: String::new(), ..Cell::default() }));
    assert!(!a.same(&Cell { fg: Color::new(1, 2, 3), ..Cell::default() }));
    assert!(!a.same(&Cell { bg: Color::new(1, 2, 3), ..Cell::default() }));
    let mut bold = Cell::default();
    bold.attrs.bold = true;
    assert!(!a.same(&bold));
    assert!(bold.same(&bold.clone()));

    let frame = vec![change(0, 0, "a"), change(0, 1, "b")];
    assert!(same_frame(&frame, &copy_frame(&frame)));
    assert!(same_frame(&Vec::new(), &Vec::new()));
    assert!(!same_frame(&frame, &vec![change(0, 0, "a")]));
    assert!(!same_frame(&frame, &vec![change(0, 0, "a"), change(0, 1, "c")]));
    assert!(!same_frame(&frame, &vec![change(0, 0, "a"), change(1, 1, "b")]));
    assert!(!same_frame(&frame, &vec![change(0, 0, "a"), change(0, 2, "b")]));
    let mut styled = copy_frame(&frame);
    styled[1].cell.attrs.underline = true;
    assert!(!same_frame(&frame, &styled));
}
