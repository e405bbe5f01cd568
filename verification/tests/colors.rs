use terminal_engine::emulator::{RawCell, RawColor};
use terminal_engine::{idx_to_color, CellAttributes, Color};

#[test]
fn standard_colors_follow_the_table() {
    assert_eq!(idx_to_color(0), Color::new(0, 0, 0));
    assert_eq!(idx_to_color(1), Color::new(205, 49, 49));
    assert_eq!(idx_to_color(2), Color::new(13, 188, 121));
    assert_eq!(idx_to_color(3), Color::new(229, 229, 16));
    assert_eq!(idx_to_color(4), Color::new(36, 114, 200));
    assert_eq!(idx_to_color(5), Color::new(188, 63, 188));
    assert_eq!(idx_to_color(6), Color::new(17, 168, 205));
    assert_eq!(idx_to_color(7), Color::new(229, 229, 229));
    assert_eq!(idx_to_color(8), Color::new(102, 102, 102));
    assert_eq!(idx_to_color(9), Color::new(241, 76, 76));
    assert_eq!(idx_to_color(10), Color::new(35, 209, 139));
    assert_eq!(idx_to_color(11), Color::new(245, 245, 67));
    assert_eq!(idx_to_color(12), Color::new(59, 142, 234));
    assert_eq!(idx_to_color(13), Color::new(214, 112, 214));
    assert_eq!(idx_to_color(14), Color::new(41, 184, 219));
    assert_eq!(idx_to_color(15), Color::new(255, 255, 255));
}

#[test]
fn cube_index_196_is_pure_red() {
    // 196 - 16 = 180 = 5 * 36: red at its highest step, green and blue at 0.
    assert_eq!(idx_to_color(196), Color::new(255, 0, 0));
}

#[test]
fn cube_corners_and_steps() {
    assert_eq!(idx_to_color(16), Color::new(0, 0, 0));
    assert_eq!(idx_to_color(17), Color::new(0, 0, 51));
    assert_eq!(idx_to_color(22), Color::new(0, 51, 0));
    assert_eq!(idx_to_color(52), Color::new(51, 0, 0));
    assert_eq!(idx_to_color(110), Color::new(102, 153, 204));
    assert_eq!(idx_to_color(231), Color::new(255, 255, 255));
}

#[test]
fn cube_follows_the_formula_everywhere() {
    for idx in 16u8..=231 {
        let n = idx - 16;
        let expected = Color::new(((n / 36) % 6) * 51, ((n / 6) % 6) * 51, (n % 6) * 51);
        assert_eq!(idx_to_color(idx), expected);
    }
}

#[test]
fn gray_index_244_is_mid_gray() {
    // (244 - 232) * 10 + 8 = 128
    assert_eq!(idx_to_color(244), Color::new(128, 128, 128));
}

#[test]
fn gray_ramp_ends() {
    assert_eq!(idx_to_color(232), Color::new(8, 8, 8));
    assert_eq!(idx_to_color(233), Color::new(18, 18, 18));
    assert_eq!(idx_to_color(255), Color::new(238, 238, 238));
}

#[test]
fn css_notation() {
    assert_eq!(Color::new(255, 0, 128).to_css(), "rgb(255, 0, 128)");
    assert_eq!(Color::new(0, 0, 0).to_css(), "rgb(0, 0, 0)");
    assert_eq!(Color::new(7, 42, 100).to_css(), "rgb(7, 42, 100)");
    assert_eq!(Color::new(10, 99, 109).to_css(), "rgb(10, 99, 109)");
}

#[test]
fn hex_notation() {
    assert_eq!(Color::new(255, 0, 128).to_hex(), "#ff0080");
    assert_eq!(Color::new(0, 0, 0).to_hex(), "#000000");
    assert_eq!(Color::new(10, 11, 12).to_hex(), "#0a0b0c");
    assert_eq!(Color::new(171, 205, 239).to_hex(), "#abcdef");
}

#[test]
fn hex_notation_of_every_byte() {
    for b in 0u8..=255 {
        assert_eq!(Color::new(b, 0, b).to_hex(), format!("#{:02x}00{:02x}", b, b));
        assert_eq!(Color::new(0, b, 0).to_css(), format!("rgb(0, {}, 0)", b));
    }
}

#[test]
fn emulator_colors_resolve_to_rgb() {
    let fallback = Color::new(1, 2, 3);
    assert_eq!(Color::from_vt100(RawColor::Default, fallback), fallback);
    assert_eq!(Color::from_vt100(RawColor::Idx(196), fallback), Color::new(255, 0, 0));
    assert_eq!(Color::from_vt100(RawColor::Idx(1), fallback), Color::new(205, 49, 49));
    assert_eq!(Color::from_vt100(RawColor::Rgb(9, 8, 7), fallback), Color::new(9, 8, 7));
}

#[test]
fn attributes_from_an_emulator_cell() {
    let cell = RawCell {
        text: "x".to_string(),
        fg: RawColor::Default,
        bg: RawColor::Default,
        bold: true,
        italic: false,
        underline: true,
        inverse: false,
        wide: false,
        continuation: false,
    };
    let attrs = CellAttributes::from_vt100_cell(&cell);
    assert!(attrs.bold);
    assert!(!attrs.italic);
    assert!(attrs.underline);
    assert!(!attrs.inverse);
    assert!(!attrs.strikethrough);
    assert!(!attrs.dim);
    assert!(!attrs.blink);
    assert_eq!(CellAttributes::default(), CellAttributes {
        bold: false,
        italic: false,
        underline: false,
        strikethrough: false,
        inverse: false,
        dim: false,
        blink: false,
    });
}
