//! Colour themes: a fixed table of named palettes.
use vstd::prelude::*;
use vstd::string::StringExecFns;
use crate::text::same_text;
use crate::types::Color;

verus! {

/// Terminal color theme.
#[derive(Debug)]
pub struct Theme {
    pub name: String,
    pub foreground: Color,
    pub background: Color,
    pub cursor: Color,
    pub cursor_text: Color,
    pub selection: Color,
    pub selection_text: Color,
    // Standard ANSI colors
    pub black: Color,
    pub red: Color,
    pub green: Color,
    pub yellow: Color,
    pub blue: Color,
    pub magenta: Color,
    pub cyan: Color,
    pub white: Color,
    // Bright variants
    pub bright_black: Color,
    pub bright_red: Color,
    pub bright_green: Color,
    pub bright_yellow: Color,
    pub bright_blue: Color,
    pub bright_magenta: Color,
    pub bright_cyan: Color,
    pub bright_white: Color,
}

/// A theme as a value: its name and its 22 colours.
pub struct ThemeView {
    pub name: Seq<char>,
    pub foreground: Color,
    pub background: Color,
    pub cursor: Color,
    pub cursor_text: Color,
    pub selection: Color,
    pub selection_text: Color,
    pub black: Color,
    pub red: Color,
    pub green: Color,
    pub yellow: Color,
    pub blue: Color,
    pub magenta: Color,
    pub cyan: Color,
    pub white: Color,
    pub bright_black: Color,
    pub bright_red: Color,
    pub bright_green: Color,
    pub bright_yellow: Color,
    pub bright_blue: Color,
    pub bright_magenta: Color,
    pub bright_cyan: Color,
    pub bright_white: Color,
}

impl ThemeView {
    /// The same colours under another name.
    pub open spec fn named(self, name: Seq<char>) -> ThemeView {
        ThemeView { name, ..self }
    }

    /// The colour of an ANSI palette index: the sixteen ANSI slots of the
    /// theme, and white for every other index.
    pub open spec fn ansi(self, idx: u8) -> Color {
        if idx == 0 {
            self.black
        } else if idx == 1 {
            self.red
        } else if idx == 2 {
            self.green
        } else if idx == 3 {
            self.yellow
        } else if idx == 4 {
            self.blue
        } else if idx == 5 {
            self.magenta
        } else if idx == 6 {
            self.cyan
        } else if idx == 7 {
            self.white
        } else if idx == 8 {
            self.bright_black
        } else if idx == 9 {
            self.bright_red
        } else if idx == 10 {
            self.bright_green
        } else if idx == 11 {
            self.bright_yellow
        } else if idx == 12 {
            self.bright_blue
        } else if idx == 13 {
            self.bright_magenta
        } else if idx == 14 {
            self.bright_cyan
        } else if idx == 15 {
            self.bright_white
        } else {
            Color { r: 255, g: 255, b: 255 }
        }
    }
}

impl View for Theme {
    type V = ThemeView;

    open spec fn view(&self) -> ThemeView {
        ThemeView {
            name: self.name@,
            foreground: self.foreground,
            background: self.background,
            cursor: self.cursor,
            cursor_text: self.cursor_text,
            selection: self.selection,
            selection_text: self.selection_text,
            black: self.black,
            red: self.red,
            green: self.green,
            yellow: self.yellow,
            blue: self.blue,
            magenta: self.magenta,
            cyan: self.cyan,
            white: self.white,
            bright_black: self.bright_black,
            bright_red: self.bright_red,
            bright_green: self.bright_green,
            bright_yellow: self.bright_yellow,
            bright_blue: self.bright_blue,
            bright_magenta: self.bright_magenta,
            bright_cyan: self.bright_cyan,
            bright_white: self.bright_white,
        }
    }
}

impl DeepView for Theme {
    type V = ThemeView;

    open spec fn deep_view(&self) -> ThemeView {
        self@
    }
}

impl Clone for Theme {
    fn clone(&self) -> (t: Self)
        ensures
            t@ == self@,
    {
        Theme {
            name: self.name.clone(),
            foreground: self.foreground,
            background: self.background,
            cursor: self.cursor,
            cursor_text: self.cursor_text,
            selection: self.selection,
            selection_text: self.selection_text,
            black: self.black,
            red: self.red,
            green: self.green,
            yellow: self.yellow,
            blue: self.blue,
            magenta: self.magenta,
            cyan: self.cyan,
            white: self.white,
            bright_black: self.bright_black,
            bright_red: self.bright_red,
            bright_green: self.bright_green,
            bright_yellow: self.bright_yellow,
            bright_blue: self.bright_blue,
            bright_magenta: self.bright_magenta,
            bright_cyan: self.bright_cyan,
            bright_white: self.bright_white,
        }
    }
}

impl Default for Theme {
    /// The dark theme, without a name.
    fn default() -> (t: Self)
        ensures
            t@ == dark_theme(),
    {
        dark()
    }
}

/// Dark theme (default).
pub open spec fn dark_theme() -> ThemeView {
    ThemeView {
        name: Seq::empty(),
        foreground: Color { r: 229, g: 229, b: 229 },
        background: Color { r: 24, g: 24, b: 27 },
        cursor: Color { r: 255, g: 255, b: 255 },
        cursor_text: Color { r: 0, g: 0, b: 0 },
        selection: Color { r: 68, g: 68, b: 76 },
        selection_text: Color { r: 255, g: 255, b: 255 },
        black: Color { r: 0, g: 0, b: 0 },
        red: Color { r: 205, g: 49, b: 49 },
        green: Color { r: 13, g: 188, b: 121 },
        yellow: Color { r: 229, g: 229, b: 16 },
        blue: Color { r: 36, g: 114, b: 200 },
        magenta: Color { r: 188, g: 63, b: 188 },
        cyan: Color { r: 17, g: 168, b: 205 },
        white: Color { r: 229, g: 229, b: 229 },
        bright_black: Color { r: 102, g: 102, b: 102 },
        bright_red: Color { r: 241, g: 76, b: 76 },
        bright_green: Color { r: 35, g: 209, b: 139 },
        bright_yellow: Color { r: 245, g: 245, b: 67 },
        bright_blue: Color { r: 59, g: 142, b: 234 },
        bright_magenta: Color { r: 214, g: 112, b: 214 },
        bright_cyan: Color { r: 41, g: 184, b: 219 },
        bright_white: Color { r: 255, g: 255, b: 255 },
    }
}

/// Dark theme (default).
pub fn dark() -> (t: Theme)
    ensures
        t@ == dark_theme(),
{
    Theme {
        name: String::new(),
        foreground: Color::new(229, 229, 229),
        background: Color::new(24, 24, 27),
        cursor: Color::new(255, 255, 255),
        cursor_text: Color::new(0, 0, 0),
        selection: Color::new(68, 68, 76),
        selection_text: Color::new(255, 255, 255),
        black: Color::new(0, 0, 0),
        red: Color::new(205, 49, 49),
        green: Color::new(13, 188, 121),
        yellow: Color::new(229, 229, 16),
        blue: Color::new(36, 114, 200),
        magenta: Color::new(188, 63, 188),
        cyan: Color::new(17, 168, 205),
        white: Color::new(229, 229, 229),
        bright_black: Color::new(102, 102, 102),
        bright_red: Color::new(241, 76, 76),
        bright_green: Color::new(35, 209, 139),
        bright_yellow: Color::new(245, 245, 67),
        bright_blue: Color::new(59, 142, 234),
        bright_magenta: Color::new(214, 112, 214),
        bright_cyan: Color::new(41, 184, 219),
        bright_white: Color::new(255, 255, 255),
    }
}

/// Light theme.
pub open spec fn light_theme() -> ThemeView {
    ThemeView {
        name: Seq::empty(),
        foreground: Color { r: 0, g: 0, b: 0 },
        background: Color { r: 255, g: 255, b: 255 },
        cursor: Color { r: 0, g: 0, b: 0 },
        cursor_text: Color { r: 255, g: 255, b: 255 },
        selection: Color { r: 178, g: 215, b: 255 },
        selection_text: Color { r: 0, g: 0, b: 0 },
        black: Color { r: 0, g: 0, b: 0 },
        red: Color { r: 205, g: 49, b: 49 },
        green: Color { r: 0, g: 128, b: 0 },
        yellow: Color { r: 128, g: 128, b: 0 },
        blue: Color { r: 0, g: 0, b: 255 },
        magenta: Color { r: 128, g: 0, b: 128 },
        cyan: Color { r: 0, g: 128, b: 128 },
        white: Color { r: 192, g: 192, b: 192 },
        bright_black: Color { r: 128, g: 128, b: 128 },
        bright_red: Color { r: 255, g: 0, b: 0 },
        bright_green: Color { r: 0, g: 255, b: 0 },
        bright_yellow: Color { r: 255, g: 255, b: 0 },
        bright_blue: Color { r: 0, g: 0, b: 255 },
        bright_magenta: Color { r: 255, g: 0, b: 255 },
        bright_cyan: Color { r: 0, g: 255, b: 255 },
        bright_white: Color { r: 255, g: 255, b: 255 },
    }
}

/// Light theme.
pub fn light() -> (t: Theme)
    ensures
        t@ == light_theme(),
{
    Theme {
        name: String::new(),
        foreground: Color::new(0, 0, 0),
        background: Color::new(255, 255, 255),
        cursor: Color::new(0, 0, 0),
        cursor_text: Color::new(255, 255, 255),
        selection: Color::new(178, 215, 255),
        selection_text: Color::new(0, 0, 0),
        black: Color::new(0, 0, 0),
        red: Color::new(205, 49, 49),
        green: Color::new(0, 128, 0),
        yellow: Color::new(128, 128, 0),
        blue: Color::new(0, 0, 255),
        magenta: Color::new(128, 0, 128),
        cyan: Color::new(0, 128, 128),
        white: Color::new(192, 192, 192),
        bright_black: Color::new(128, 128, 128),
        bright_red: Color::new(255, 0, 0),
        bright_green: Color::new(0, 255, 0),
        bright_yellow: Color::new(255, 255, 0),
        bright_blue: Color::new(0, 0, 255),
        bright_magenta: Color::new(255, 0, 255),
        bright_cyan: Color::new(0, 255, 255),
        bright_white: Color::new(255, 255, 255),
    }
}

/// Solarized Dark theme.
pub open spec fn solarized_dark_theme() -> ThemeView {
    ThemeView {
        name: Seq::empty(),
        foreground: Color { r: 131, g: 148, b: 150 },
        background: Color { r: 0, g: 43, b: 54 },
        cursor: Color { r: 131, g: 148, b: 150 },
        cursor_text: Color { r: 0, g: 43, b: 54 },
        selection: Color { r: 7, g: 54, b: 66 },
        selection_text: Color { r: 131, g: 148, b: 150 },
        black: Color { r: 7, g: 54, b: 66 },
        red: Color { r: 220, g: 50, b: 47 },
        green: Color { r: 133, g: 153, b: 0 },
        yellow: Color { r: 181, g: 137, b: 0 },
        blue: Color { r: 38, g: 139, b: 210 },
        magenta: Color { r: 211, g: 54, b: 130 },
        cyan: Color { r: 42, g: 161, b: 152 },
        white: Color { r: 238, g: 232, b: 213 },
        bright_black: Color { r: 0, g: 43, b: 54 },
        bright_red: Color { r: 203, g: 75, b: 22 },
        bright_green: Color { r: 88, g: 110, b: 117 },
        bright_yellow: Color { r: 101, g: 123, b: 131 },
        bright_blue: Color { r: 131, g: 148, b: 150 },
        bright_magenta: Color { r: 108, g: 113, b: 196 },
        bright_cyan: Color { r: 147, g: 161, b: 161 },
        bright_white: Color { r: 253, g: 246, b: 227 },
    }
}

/// Solarized Dark theme.
pub fn solarized_dark() -> (t: Theme)
    ensures
        t@ == solarized_dark_theme(),
{
    Theme {
        name: String::new(),
        foreground: Color::new(131, 148, 150),
        background: Color::new(0, 43, 54),
        cursor: Color::new(131, 148, 150),
        cursor_text: Color::new(0, 43, 54),
        selection: Color::new(7, 54, 66),
        selection_text: Color::new(131, 148, 150),
        black: Color::new(7, 54, 66),
        red: Color::new(220, 50, 47),
        green: Color::new(133, 153, 0),
        yellow: Color::new(181, 137, 0),
        blue: Color::new(38, 139, 210),
        magenta: Color::new(211, 54, 130),
        cyan: Color::new(42, 161, 152),
        white: Color::new(238, 232, 213),
        bright_black: Color::new(0, 43, 54),
        bright_red: Color::new(203, 75, 22),
        bright_green: Color::new(88, 110, 117),
        bright_yellow: Color::new(101, 123, 131),
        bright_blue: Color::new(131, 148, 150),
        bright_magenta: Color::new(108, 113, 196),
        bright_cyan: Color::new(147, 161, 161),
        bright_white: Color::new(253, 246, 227),
    }
}

/// Dracula theme.
pub open spec fn dracula_theme() -> ThemeView {
    ThemeView {
        name: Seq::empty(),
        foreground: Color { r: 248, g: 248, b: 242 },
        background: Color { r: 40, g: 42, b: 54 },
        cursor: Color { r: 248, g: 248, b: 242 },
        cursor_text: Color { r: 40, g: 42, b: 54 },
        selection: Color { r: 68, g: 71, b: 90 },
        selection_text: Color { r: 248, g: 248, b: 242 },
        black: Color { r: 33, g: 34, b: 44 },
        red: Color { r: 255, g: 85, b: 85 },
        green: Color { r: 80, g: 250, b: 123 },
        yellow: Color { r: 241, g: 250, b: 140 },
        blue: Color { r: 98, g: 114, b: 164 },
        magenta: Color { r: 255, g: 121, b: 198 },
        cyan: Color { r: 139, g: 233, b: 253 },
        white: Color { r: 248, g: 248, b: 242 },
        bright_black: Color { r: 98, g: 114, b: 164 },
        bright_red: Color { r: 255, g: 110, b: 103 },
        bright_green: Color { r: 90, g: 247, b: 142 },
        bright_yellow: Color { r: 244, g: 249, b: 157 },
        bright_blue: Color { r: 119, g: 136, b: 189 },
        bright_magenta: Color { r: 255, g: 146, b: 208 },
        bright_cyan: Color { r: 154, g: 237, b: 254 },
        bright_white: Color { r: 255, g: 255, b: 255 },
    }
}

/// Dracula theme.
pub fn dracula() -> (t: Theme)
    ensures
        t@ == dracula_theme(),
{
    Theme {
        name: String::new(),
        foreground: Color::new(248, 248, 242),
        background: Color::new(40, 42, 54),
        cursor: Color::new(248, 248, 242),
        cursor_text: Color::new(40, 42, 54),
        selection: Color::new(68, 71, 90),
        selection_text: Color::new(248, 248, 242),
        black: Color::new(33, 34, 44),
        red: Color::new(255, 85, 85),
        green: Color::new(80, 250, 123),
        yellow: Color::new(241, 250, 140),
        blue: Color::new(98, 114, 164),
        magenta: Color::new(255, 121, 198),
        cyan: Color::new(139, 233, 253),
        white: Color::new(248, 248, 242),
        bright_black: Color::new(98, 114, 164),
        bright_red: Color::new(255, 110, 103),
        bright_green: Color::new(90, 247, 142),
        bright_yellow: Color::new(244, 249, 157),
        bright_blue: Color::new(119, 136, 189),
        bright_magenta: Color::new(255, 146, 208),
        bright_cyan: Color::new(154, 237, 254),
        bright_white: Color::new(255, 255, 255),
    }
}

/// Nord theme.
pub open spec fn nord_theme() -> ThemeView {
    ThemeView {
        name: Seq::empty(),
        foreground: Color { r: 216, g: 222, b: 233 },
        background: Color { r: 46, g: 52, b: 64 },
        cursor: Color { r: 216, g: 222, b: 233 },
        cursor_text: Color { r: 46, g: 52, b: 64 },
        selection: Color { r: 67, g: 76, b: 94 },
        selection_text: Color { r: 216, g: 222, b: 233 },
        black: Color { r: 59, g: 66, b: 82 },
        red: Color { r: 191, g: 97, b: 106 },
        green: Color { r: 163, g: 190, b: 140 },
        yellow: Color { r: 235, g: 203, b: 139 },
        blue: Color { r: 129, g: 161, b: 193 },
        magenta: Color { r: 180, g: 142, b: 173 },
        cyan: Color { r: 136, g: 192, b: 208 },
        white: Color { r: 229, g: 233, b: 240 },
        bright_black: Color { r: 76, g: 86, b: 106 },
        bright_red: Color { r: 191, g: 97, b: 106 },
        bright_green: Color { r: 163, g: 190, b: 140 },
        bright_yellow: Color { r: 235, g: 203, b: 139 },
        bright_blue: Color { r: 129, g: 161, b: 193 },
        bright_magenta: Color { r: 180, g: 142, b: 173 },
        bright_cyan: Color { r: 143, g: 188, b: 187 },
        bright_white: Color { r: 236, g: 239, b: 244 },
    }
}

/// Nord theme.
pub fn nord() -> (t: Theme)
    ensures
        t@ == nord_theme(),
{
    Theme {
        name: String::new(),
        foreground: Color::new(216, 222, 233),
        background: Color::new(46, 52, 64),
        cursor: Color::new(216, 222, 233),
        cursor_text: Color::new(46, 52, 64),
        selection: Color::new(67, 76, 94),
        selection_text: Color::new(216, 222, 233),
        black: Color::new(59, 66, 82),
        red: Color::new(191, 97, 106),
        green: Color::new(163, 190, 140),
        yellow: Color::new(235, 203, 139),
        blue: Color::new(129, 161, 193),
        magenta: Color::new(180, 142, 173),
        cyan: Color::new(136, 192, 208),
        white: Color::new(229, 233, 240),
        bright_black: Color::new(76, 86, 106),
        bright_red: Color::new(191, 97, 106),
        bright_green: Color::new(163, 190, 140),
        bright_yellow: Color::new(235, 203, 139),
        bright_blue: Color::new(129, 161, 193),
        bright_magenta: Color::new(180, 142, 173),
        bright_cyan: Color::new(143, 188, 187),
        bright_white: Color::new(236, 239, 244),
    }
}

/// One Dark theme.
pub open spec fn one_dark_theme() -> ThemeView {
    ThemeView {
        name: Seq::empty(),
        foreground: Color { r: 171, g: 178, b: 191 },
        background: Color { r: 40, g: 44, b: 52 },
        cursor: Color { r: 82, g: 139, b: 255 },
        cursor_text: Color { r: 40, g: 44, b: 52 },
        selection: Color { r: 62, g: 68, b: 81 },
        selection_text: Color { r: 171, g: 178, b: 191 },
        black: Color { r: 40, g: 44, b: 52 },
        red: Color { r: 224, g: 108, b: 117 },
        green: Color { r: 152, g: 195, b: 121 },
        yellow: Color { r: 229, g: 192, b: 123 },
        blue: Color { r: 97, g: 175, b: 239 },
        magenta: Color { r: 198, g: 120, b: 221 },
        cyan: Color { r: 86, g: 182, b: 194 },
        white: Color { r: 171, g: 178, b: 191 },
        bright_black: Color { r: 92, g: 99, b: 112 },
        bright_red: Color { r: 224, g: 108, b: 117 },
        bright_green: Color { r: 152, g: 195, b: 121 },
        bright_yellow: Color { r: 229, g: 192, b: 123 },
        bright_blue: Color { r: 97, g: 175, b: 239 },
        bright_magenta: Color { r: 198, g: 120, b: 221 },
        bright_cyan: Color { r: 86, g: 182, b: 194 },
        bright_white: Color { r: 255, g: 255, b: 255 },
    }
}

/// One Dark theme.
pub fn one_dark() -> (t: Theme)
    ensures
        t@ == one_dark_theme(),
{
    Theme {
        name: String::new(),
        foreground: Color::new(171, 178, 191),
        background: Color::new(40, 44, 52),
        cursor: Color::new(82, 139, 255),
        cursor_text: Color::new(40, 44, 52),
        selection: Color::new(62, 68, 81),
        selection_text: Color::new(171, 178, 191),
        black: Color::new(40, 44, 52),
        red: Color::new(224, 108, 117),
        green: Color::new(152, 195, 121),
        yellow: Color::new(229, 192, 123),
        blue: Color::new(97, 175, 239),
        magenta: Color::new(198, 120, 221),
        cyan: Color::new(86, 182, 194),
        white: Color::new(171, 178, 191),
        bright_black: Color::new(92, 99, 112),
        bright_red: Color::new(224, 108, 117),
        bright_green: Color::new(152, 195, 121),
        bright_yellow: Color::new(229, 192, 123),
        bright_blue: Color::new(97, 175, 239),
        bright_magenta: Color::new(198, 120, 221),
        bright_cyan: Color::new(86, 182, 194),
        bright_white: Color::new(255, 255, 255),
    }
}

/// The theme that goes by `name`, if there is one. The table holds, in this
/// order: dark, light, solarized-dark, dracula, nord, one-dark.
pub open spec fn builtin_theme(name: Seq<char>) -> Option<ThemeView> {
    if name == "dark"@ {
        Some(dark_theme().named(name))
    } else if name == "light"@ {
        Some(light_theme().named(name))
    } else if name == "solarized-dark"@ {
        Some(solarized_dark_theme().named(name))
    } else if name == "dracula"@ {
        Some(dracula_theme().named(name))
    } else if name == "nord"@ {
        Some(nord_theme().named(name))
    } else if name == "one-dark"@ {
        Some(one_dark_theme().named(name))
    } else {
        None
    }
}

/// The names of the themes, in the order of the table.
pub open spec fn builtin_names() -> Seq<Seq<char>> {
    seq!["dark"@, "light"@, "solarized-dark"@, "dracula"@, "nord"@, "one-dark"@]
}

/// The names of all available themes.
pub fn theme_names() -> (names: Vec<String>)
    ensures
        names.deep_view() == builtin_names(),
{
    let mut names: Vec<String> = Vec::new();
    names.push(String::from_str("dark"));
    names.push(String::from_str("light"));
    names.push(String::from_str("solarized-dark"));
    names.push(String::from_str("dracula"));
    names.push(String::from_str("nord"));
    names.push(String::from_str("one-dark"));
    names
}

impl Theme {
    fn renamed(self, name: &str) -> (t: Theme)
        ensures
            t@ == self@.named(name@),
    {
        let mut theme = self;
        theme.name = String::from_str(name);
        theme
    }

    /// Get a theme by name.
    pub fn by_name(name: &str) -> (theme: Option<Theme>)
        ensures
            theme.deep_view() == builtin_theme(name@),
    {
        if same_text(name, "dark") {
            Some(dark().renamed(name))
        } else if same_text(name, "light") {
            Some(light().renamed(name))
        } else if same_text(name, "solarized-dark") {
            Some(solarized_dark().renamed(name))
        } else if same_text(name, "dracula") {
            Some(dracula().renamed(name))
        } else if same_text(name, "nord") {
            Some(nord().renamed(name))
        } else if same_text(name, "one-dark") {
            Some(one_dark().renamed(name))
        } else {
            None
        }
    }

    /// Get color by ANSI index.
    pub fn color_by_index(&self, idx: u8) -> (c: Color)
        ensures
            c == self@.ansi(idx),
    {
        match idx {
            0 => self.black,
            1 => self.red,
            2 => self.green,
            3 => self.yellow,
            4 => self.blue,
            5 => self.magenta,
            6 => self.cyan,
            7 => self.white,
            8 => self.bright_black,
            9 => self.bright_red,
            10 => self.bright_green,
            11 => self.bright_yellow,
            12 => self.bright_blue,
            13 => self.bright_magenta,
            14 => self.bright_cyan,
            15 => self.bright_white,
            _ => Color::new(255, 255, 255),
        }
    }
}

} // verus!
