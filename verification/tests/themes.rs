use terminal_engine::{theme_names, Color, Theme};

#[test]
fn dracula_is_in_the_table() {
    let theme = Theme::by_name("dracula").unwrap();
    assert_eq!(theme.name, "dracula");
    assert_eq!(theme.background, Color::new(40, 42, 54));
    assert_eq!(theme.foreground, Color::new(248, 248, 242));
    assert_eq!(theme.red, Color::new(255, 85, 85));
    assert_eq!(theme.bright_white, Color::new(255, 255, 255));
}

#[test]
fn every_listed_theme_is_found_under_its_name() {
    let names = theme_names();
    assert_eq!(names, vec!["dark", "light", "solarized-dark", "dracula", "nord", "one-dark"]);
    for name in names {
        let theme = Theme::by_name(&name).unwrap();
        assert_eq!(theme.name, name);
    }
}

#[test]
fn theme_backgrounds() {
    assert_eq!(Theme::by_name("dark").unwrap().background, Color::new(24, 24, 27));
    assert_eq!(Theme::by_name("light").unwrap().background, Color::new(255, 255, 255));
    assert_eq!(Theme::by_name("solarized-dark").unwrap().background, Color::new(0, 43, 54));
    assert_eq!(Theme::by_name("nord").unwrap().background, Color::new(46, 52, 64));
    assert_eq!(Theme::by_name("one-dark").unwrap().background, Color::new(40, 44, 52));
    assert_eq!(Theme::by_name("one-dark").unwrap().cursor, Color::new(82, 139, 255));
    assert_eq!(Theme::by_name("nord").unwrap().bright_cyan, Color::new(143, 188, 187));
    assert_eq!(Theme::by_name("light").unwrap().selection, Color::new(178, 215, 255));
    assert_eq!(Theme::by_name("solarized-dark").unwrap().bright_red, Color::new(203, 75, 22));
}

#[test]
fn unknown_theme_names_are_not_found() {
    assert!(Theme::by_name("not-a-theme").is_none());
    assert!(Theme::by_name("").is_none());
    assert!(Theme::by_name("Dracula").is_none());
    assert!(Theme::by_name("dark ").is_none());
}

#[test]
fn default_theme_is_dark_without_a_name() {
    let theme = Theme::default();
    assert_eq!(theme.name, "");
    assert_eq!(theme.background, Color::new(24, 24, 27));
    assert_eq!(theme.foreground, Color::new(229, 229, 229));
}

#[test]
fn ansi_index_picks_the_slot() {
    let theme = Theme::by_name("dracula").unwrap();
    assert_eq!(theme.color_by_index(0), Color::new(33, 34, 44));
    assert_eq!(theme.color_by_index(1), Color::new(255, 85, 85));
    assert_eq!(theme.color_by_index(2), Color::new(80, 250, 123));
    assert_eq!(theme.color_by_index(3), Color::new(241, 250, 140));
    assert_eq!(theme.color_by_index(4), Color::new(98, 114, 164));
    assert_eq!(theme.color_by_index(5), Color::new(255, 121, 198));
    assert_eq!(theme.color_by_index(6), Color::new(139, 233, 253));
    assert_eq!(theme.color_by_index(7), Color::new(248, 248, 242));
    assert_eq!(theme.color_by_index(8), Color::new(98, 114, 164));
    assert_eq!(theme.color_by_index(9), Color::new(255, 110, 103));
    assert_eq!(theme.color_by_index(10), Color::new(90, 247, 142));
    assert_eq!(theme.color_by_index(11), Color::new(244, 249, 157));
    assert_eq!(theme.color_by_index(12), Color::new(119, 136, 189));
    assert_eq!(theme.color_by_index(13), Color::new(255, 146, 208));
    assert_eq!(theme.color_by_index(14), Color::new(154, 237, 254));
    assert_eq!(theme.color_by_index(15), Color::new(255, 255, 255));
}

#[test]
fn ansi_index_beyond_the_slots_is_white() {
    let theme = Theme::by_name("nord").unwrap();
    assert_eq!(theme.color_by_index(16), Color::new(255, 255, 255));
    assert_eq!(theme.color_by_index(200), Color::new(255, 255, 255));
    assert_eq!(theme.color_by_index(255), Color::new(255, 255, 255));
}

#[test]
fn a_cloned_theme_is_the_same_theme() {
    let theme = Theme::by_name("light").unwrap();
    let copy = theme.clone();
    assert_eq!(copy.name, theme.name);
    assert_eq!(copy.background, theme.background);
    assert_eq!(copy.bright_magenta, theme.bright_magenta);
}
