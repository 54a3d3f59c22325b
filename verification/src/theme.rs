//! The colors of the screen: the presets, the colors that a configuration
//! may put in their place, and how a color is read from its name.

use vstd::prelude::*;
use crate::text::{lowercase, lowercased, opt_text, same_text};

verus! {

/// A color of the terminal.
#[derive(Debug, Clone, Copy, PartialEq, Eq, Structural)]
pub enum Color {
    Reset,
    Black,
    Red,
    Green,
    Yellow,
    Blue,
    Magenta,
    Cyan,
    Gray,
    DarkGray,
    LightRed,
    LightGreen,
    LightYellow,
    LightBlue,
    LightMagenta,
    LightCyan,
    White,
    Rgb(u8, u8, u8),
}

/// A named set of colors.
#[derive(Debug, Clone, Copy, PartialEq, Eq, Structural)]
pub enum ThemePreset {
    Default,
    Everforest,
    Nord,
    Dracula,
    Catppuccin,
    Custom,
}

/// The colors as the configuration gives them: a preset, and for each color
/// of the screen a name that takes the place of the preset's color.
#[derive(Debug)]
pub struct Theme {
    pub preset: ThemePreset,
    pub bg: Option<String>,
    pub fg: Option<String>,
    pub accent: Option<String>,
    pub highlight_bg: Option<String>,
    pub highlight_fg: Option<String>,
    pub border_active: Option<String>,
    pub border_inactive: Option<String>,
    pub playing_color: Option<String>,
    pub artist_color: Option<String>,
    pub album_color: Option<String>,
    pub muted_color: Option<String>,
    pub bold: bool,
}

/// The colors that the screen is drawn with.
#[derive(Debug, Clone, Copy, PartialEq, Eq, Structural)]
pub struct ResolvedTheme {
    pub bg: Color,
    pub fg: Color,
    pub accent: Color,
    pub highlight_bg: Color,
    pub highlight_fg: Color,
    pub border_active: Color,
    pub border_inactive: Color,
    pub playing_color: Color,
    pub artist_color: Color,
    pub album_color: Color,
    pub muted_color: Color,
    pub bold: bool,
}

/// The value of a hexadecimal digit.
pub open spec fn hex_value(c: char) -> Option<int> {
    if '0' <= c <= '9' {
        Some(c as int - '0' as int)
    } else if 'a' <= c <= 'f' {
        Some(c as int - 'a' as int + 10)
    } else if 'A' <= c <= 'F' {
        Some(c as int - 'A' as int + 10)
    } else {
        None
    }
}

/// The value of two characters read as a number in base sixteen: two digits,
/// or a plus sign and one digit.
pub open spec fn pair_value(a: char, b: char) -> Option<u8> {
    match hex_value(b) {
        Some(low) => if a == '+' {
            Some(low as u8)
        } else {
            match hex_value(a) {
                Some(high) => Some((high * 16 + low) as u8),
                None => None,
            }
        },
        None => None,
    }
}

/// The color that a number sign and six more characters name: the three
/// pairs are the red, green and blue parts.
pub open spec fn hex_color(s: Seq<char>) -> Option<Color>
    recommends
        s.len() == 7,
{
    match (pair_value(s[1], s[2]), pair_value(s[3], s[4]), pair_value(s[5], s[6])) {
        (Some(r), Some(g), Some(b)) => Some(Color::Rgb(r, g, b)),
        _ => None,
    }
}

/// The color that a name in lowercase names. The empty name names the
/// terminal's own color.
pub open spec fn named_color(name: Seq<char>) -> Option<Color> {
    if name == "black"@ {
        Some(Color::Black)
    } else if name == "red"@ {
        Some(Color::Red)
    } else if name == "green"@ {
        Some(Color::Green)
    } else if name == "yellow"@ {
        Some(Color::Yellow)
    } else if name == "blue"@ {
        Some(Color::Blue)
    } else if name == "magenta"@ {
        Some(Color::Magenta)
    } else if name == "cyan"@ {
        Some(Color::Cyan)
    } else if name == "white"@ {
        Some(Color::White)
    } else if name == "darkgray"@ || name == "darkgrey"@ {
        Some(Color::DarkGray)
    } else if name == "lightred"@ {
        Some(Color::LightRed)
    } else if name == "lightgreen"@ {
        Some(Color::LightGreen)
    } else if name == "lightyellow"@ {
        Some(Color::LightYellow)
    } else if name == "lightblue"@ {
        Some(Color::LightBlue)
    } else if name == "lightmagenta"@ {
        Some(Color::LightMagenta)
    } else if name == "lightcyan"@ {
        Some(Color::LightCyan)
    } else if name == "gray"@ || name == "grey"@ {
        Some(Color::Gray)
    } else if name == "reset"@ || name == ""@ {
        Some(Color::Reset)
    } else {
        None
    }
}

/// The color that a text names: a number sign with six more characters is
/// read as red, green and blue parts in base sixteen, and names nothing if
/// they cannot be read so; every other text is read as a name, whatever the
/// case of its letters.
pub open spec fn parsed_color(s: Seq<char>) -> Option<Color> {
    if s.len() == 7 && s[0] == '#' {
        hex_color(s)
    } else {
        named_color(lowercased(s))
    }
}

/// The color that takes the place of `fallback`: the one that the text
/// names, if there is a text and it names one.
pub open spec fn color_or(over: Option<Seq<char>>, fallback: Color) -> Color {
    match over {
        Some(s) => match parsed_color(s) {
            Some(c) => c,
            None => fallback,
        },
        None => fallback,
    }
}

/// The colors of a preset.
pub open spec fn preset_of(preset: ThemePreset) -> ResolvedTheme {
    match preset {
        ThemePreset::Everforest => ResolvedTheme {
            bg: Color::Rgb(45, 53, 59),
            fg: Color::Rgb(211, 198, 170),
            accent: Color::Rgb(167, 192, 128),
            highlight_bg: Color::Rgb(82, 97, 89),
            highlight_fg: Color::Rgb(211, 198, 170),
            border_active: Color::Rgb(167, 192, 128),
            border_inactive: Color::Rgb(82, 97, 89),
            playing_color: Color::Rgb(167, 192, 128),
            artist_color: Color::Rgb(214, 153, 104),
            album_color: Color::Rgb(131, 192, 146),
            muted_color: Color::Rgb(131, 145, 141),
            bold: true,
        },
        ThemePreset::Nord => ResolvedTheme {
            bg: Color::Rgb(46, 52, 64),
            fg: Color::Rgb(236, 239, 244),
            accent: Color::Rgb(136, 192, 208),
            highlight_bg: Color::Rgb(67, 76, 94),
            highlight_fg: Color::Rgb(236, 239, 244),
            border_active: Color::Rgb(136, 192, 208),
            border_inactive: Color::Rgb(76, 86, 106),
            playing_color: Color::Rgb(163, 190, 140),
            artist_color: Color::Rgb(235, 203, 139),
            album_color: Color::Rgb(136, 192, 208),
            muted_color: Color::Rgb(76, 86, 106),
            bold: true,
        },
        ThemePreset::Dracula => ResolvedTheme {
            bg: Color::Rgb(40, 42, 54),
            fg: Color::Rgb(248, 248, 242),
            accent: Color::Rgb(189, 147, 249),
            highlight_bg: Color::Rgb(68, 71, 90),
            highlight_fg: Color::Rgb(248, 248, 242),
            border_active: Color::Rgb(189, 147, 249),
            border_inactive: Color::Rgb(68, 71, 90),
            playing_color: Color::Rgb(80, 250, 123),
            artist_color: Color::Rgb(255, 184, 108),
            album_color: Color::Rgb(139, 233, 253),
            muted_color: Color::Rgb(98, 114, 164),
            bold: true,
        },
        ThemePreset::Catppuccin => ResolvedTheme {
            bg: Color::Rgb(30, 30, 46),
            fg: Color::Rgb(205, 214, 244),
            accent: Color::Rgb(137, 180, 250),
            highlight_bg: Color::Rgb(49, 50, 68),
            highlight_fg: Color::Rgb(205, 214, 244),
            border_active: Color::Rgb(137, 180, 250),
            border_inactive: Color::Rgb(88, 91, 112),
            playing_color: Color::Rgb(166, 227, 161),
            artist_color: Color::Rgb(250, 179, 135),
            album_color: Color::Rgb(137, 220, 235),
            muted_color: Color::Rgb(108, 112, 134),
            bold: true,
        },
        ThemePreset::Default | ThemePreset::Custom => ResolvedTheme {
            bg: Color::Reset,
            fg: Color::White,
            accent: Color::Cyan,
            highlight_bg: Color::DarkGray,
            highlight_fg: Color::White,
            border_active: Color::Cyan,
            border_inactive: Color::DarkGray,
            playing_color: Color::LightGreen,
            artist_color: Color::Yellow,
            album_color: Color::Cyan,
            muted_color: Color::DarkGray,
            bold: true,
        },
    }
}

/// Reads a hexadecimal digit.
fn hex_digit(c: char) -> (r: Option<u8>)
    ensures
        match r {
            Some(v) => hex_value(c) == Some(v as int) && v < 16,
            None => hex_value(c).is_none(),
        },
{
    if '0' <= c && c <= '9' {
        Some((c as u32 - '0' as u32) as u8)
    } else if 'a' <= c && c <= 'f' {
        Some((c as u32 - 'a' as u32 + 10) as u8)
    } else if 'A' <= c && c <= 'F' {
        Some((c as u32 - 'A' as u32 + 10) as u8)
    } else {
        None
    }
}

/// Reads two characters as a number in base sixteen.
fn hex_pair(a: char, b: char) -> (r: Option<u8>)
    ensures
        r == pair_value(a, b),
{
    match hex_digit(b) {
        Some(low) => if a == '+' {
            Some(low)
        } else {
            match hex_digit(a) {
                Some(high) => Some(high * 16 + low),
                None => None,
            }
        },
        None => None,
    }
}

/// Reads a name in lowercase as a color.
fn color_by_name(name: &str) -> (r: Option<Color>)
    ensures
        r == named_color(name@),
{
    if same_text(name, "black") {
        Some(Color::Black)
    } else if same_text(name, "red") {
        Some(Color::Red)
    } else if same_text(name, "green") {
        Some(Color::Green)
    } else if same_text(name, "yellow") {
        Some(Color::Yellow)
    } else if same_text(name, "blue") {
        Some(Color::Blue)
    } else if same_text(name, "magenta") {
        Some(Color::Magenta)
    } else if same_text(name, "cyan") {
        Some(Color::Cyan)
    } else if same_text(name, "white") {
        Some(Color::White)
    } else if same_text(name, "darkgray") || same_text(name, "darkgrey") {
        Some(Color::DarkGray)
    } else if same_text(name, "lightred") {
        Some(Color::LightRed)
    } else if same_text(name, "lightgreen") {
        Some(Color::LightGreen)
    } else if same_text(name, "lightyellow") {
        Some(Color::LightYellow)
    } else if same_text(name, "lightblue") {
        Some(Color::LightBlue)
    } else if same_text(name, "lightmagenta") {
        Some(Color::LightMagenta)
    } else if same_text(name, "lightcyan") {
        Some(Color::LightCyan)
    } else if same_text(name, "gray") || same_text(name, "grey") {
        Some(Color::Gray)
    } else if same_text(name, "reset") || same_text(name, "") {
        Some(Color::Reset)
    } else {
        None
    }
}

impl Theme {
    /// View of the names that take the place of the preset's colors, in the
    /// order of the fields.
    pub open spec fn overrides(&self) -> Seq<Option<Seq<char>>> {
        seq![
            opt_text(self.bg),
            opt_text(self.fg),
            opt_text(self.accent),
            opt_text(self.highlight_bg),
            opt_text(self.highlight_fg),
            opt_text(self.border_active),
            opt_text(self.border_inactive),
            opt_text(self.playing_color),
            opt_text(self.artist_color),
            opt_text(self.album_color),
            opt_text(self.muted_color),
        ]
    }

    /// The colors that the screen is drawn with: those of the preset, each
    /// replaced by the color that the configuration names for it, if it names
    /// one. Boldness is as configured.
    pub open spec fn resolved(&self) -> ResolvedTheme {
        let p = preset_of(self.preset);
        ResolvedTheme {
            bg: color_or(opt_text(self.bg), p.bg),
            fg: color_or(opt_text(self.fg), p.fg),
            accent: color_or(opt_text(self.accent), p.accent),
            highlight_bg: color_or(opt_text(self.highlight_bg), p.highlight_bg),
            highlight_fg: color_or(opt_text(self.highlight_fg), p.highlight_fg),
            border_active: color_or(opt_text(self.border_active), p.border_active),
            border_inactive: color_or(opt_text(self.border_inactive), p.border_inactive),
            playing_color: color_or(opt_text(self.playing_color), p.playing_color),
            artist_color: color_or(opt_text(self.artist_color), p.artist_color),
            album_color: color_or(opt_text(self.album_color), p.album_color),
            muted_color: color_or(opt_text(self.muted_color), p.muted_color),
            bold: self.bold,
        }
    }

    /// Computes the colors that the screen is drawn with.
    pub fn resolve(&self) -> (r: ResolvedTheme)
        ensures
            r == self.resolved(),
    {
        let preset = self.preset_colors();
        ResolvedTheme {
            bg: Self::parse_color_or(&self.bg, preset.bg),
            fg: Self::parse_color_or(&self.fg, preset.fg),
            accent: Self::parse_color_or(&self.accent, preset.accent),
            highlight_bg: Self::parse_color_or(&self.highlight_bg, preset.highlight_bg),
            highlight_fg: Self::parse_color_or(&self.highlight_fg, preset.highlight_fg),
            border_active: Self::parse_color_or(&self.border_active, preset.border_active),
            border_inactive: Self::parse_color_or(&self.border_inactive, preset.border_inactive),
            playing_color: Self::parse_color_or(&self.playing_color, preset.playing_color),
            artist_color: Self::parse_color_or(&self.artist_color, preset.artist_color),
            album_color: Self::parse_color_or(&self.album_color, preset.album_color),
            muted_color: Self::parse_color_or(&self.muted_color, preset.muted_color),
            bold: self.bold,
        }
    }

    /// The color that takes the place of `fallback`.
    pub fn parse_color_or(override_color: &Option<String>, fallback: Color) -> (r: Color)
        ensures
            r == color_or(opt_text(*override_color), fallback),
    {
        match override_color {
            Some(s) => match Self::parse_color(s.as_str()) {
                Some(c) => c,
                None => fallback,
            },
            None => fallback,
        }
    }

    /// Reads a color from its name or from its red, green and blue parts.
    pub fn parse_color(s: &str) -> (r: Option<Color>)
        ensures
            r == parsed_color(s@),
    {
        let n = s.unicode_len();
        if n == 7 && s.get_char(0) == '#' {
            let red = hex_pair(s.get_char(1), s.get_char(2));
            let green = hex_pair(s.get_char(3), s.get_char(4));
            let blue = hex_pair(s.get_char(5), s.get_char(6));
            match (red, green, blue) {
                (Some(r), Some(g), Some(b)) => Some(Color::Rgb(r, g, b)),
                _ => None,
            }
        } else {
            let lowered = lowercase(s);
            color_by_name(lowered.as_str())
        }
    }

    /// The colors of the theme's preset.
    pub fn preset_colors(&self) -> (r: ResolvedTheme)
        ensures
            r == preset_of(self.preset),
    {
        match self.preset {
            ThemePreset::Everforest => ResolvedTheme {
                bg: Color::Rgb(45, 53, 59),
                fg: Color::Rgb(211, 198, 170),
                accent: Color::Rgb(167, 192, 128),
                highlight_bg: Color::Rgb(82, 97, 89),
                highlight_fg: Color::Rgb(211, 198, 170),
                border_active: Color::Rgb(167, 192, 128),
                border_inactive: Color::Rgb(82, 97, 89),
                playing_color: Color::Rgb(167, 192, 128),
                artist_color: Color::Rgb(214, 153, 104),
                album_color: Color::Rgb(131, 192, 146),
                muted_color: Color::Rgb(131, 145, 141),
                bold: true,
            },
            ThemePreset::Nord => ResolvedTheme {
                bg: Color::Rgb(46, 52, 64),
                fg: Color::Rgb(236, 239, 244),
                accent: Color::Rgb(136, 192, 208),
                highlight_bg: Color::Rgb(67, 76, 94),
                highlight_fg: Color::Rgb(236, 239, 244),
                border_active: Color::Rgb(136, 192, 208),
                border_inactive: Color::Rgb(76, 86, 106),
                playing_color: Color::Rgb(163, 190, 140),
                artist_color: Color::Rgb(235, 203, 139),
                album_color: Color::Rgb(136, 192, 208),
                muted_color: Color::Rgb(76, 86, 106),
                bold: true,
            },
            ThemePreset::Dracula => ResolvedTheme {
                bg: Color::Rgb(40, 42, 54),
                fg: Color::Rgb(248, 248, 242),
                accent: Color::Rgb(189, 147, 249),
                highlight_bg: Color::Rgb(68, 71, 90),
                highlight_fg: Color::Rgb(248, 248, 242),
                border_active: Color::Rgb(189, 147, 249),
                border_inactive: Color::Rgb(68, 71, 90),
                playing_color: Color::Rgb(80, 250, 123),
                artist_color: Color::Rgb(255, 184, 108),
                album_color: Color::Rgb(139, 233, 253),
                muted_color: Color::Rgb(98, 114, 164),
                bold: true,
            },
            ThemePreset::Catppuccin => ResolvedTheme {
                bg: Color::Rgb(30, 30, 46),
                fg: Color::Rgb(205, 214, 244),
                accent: Color::Rgb(137, 180, 250),
                highlight_bg: Color::Rgb(49, 50, 68),
                highlight_fg: Color::Rgb(205, 214, 244),
                border_active: Color::Rgb(137, 180, 250),
                border_inactive: Color::Rgb(88, 91, 112),
                playing_color: Color::Rgb(166, 227, 161),
                artist_color: Color::Rgb(250, 179, 135),
                album_color: Color::Rgb(137, 220, 235),
                muted_color: Color::Rgb(108, 112, 134),
                bold: true,
            },
            ThemePreset::Default | ThemePreset::Custom => ResolvedTheme {
                bg: Color::Reset,
                fg: Color::White,
                accent: Color::Cyan,
                highlight_bg: Color::DarkGray,
                highlight_fg: Color::White,
                border_active: Color::Cyan,
                border_inactive: Color::DarkGray,
                playing_color: Color::LightGreen,
                artist_color: Color::Yellow,
                album_color: Color::Cyan,
                muted_color: Color::DarkGray,
                bold: true,
            },
        }
    }
}

impl Default for Theme {
    /// The default preset with none of its colors replaced, in bold.
    fn default() -> (t: Theme)
        ensures
            t.preset == ThemePreset::Default,
            t.overrides() == Seq::new(11, |i: int| None::<Seq<char>>),
            t.bold,
    {
        let t = Theme {
            preset: ThemePreset::Default,
            bg: None,
            fg: None,
            accent: None,
            highlight_bg: None,
            highlight_fg: None,
            border_active: None,
            border_inactive: None,
            playing_color: None,
            artist_color: None,
            album_color: None,
            muted_color: None,
            bold: true,
        };
        assert(t.overrides() =~= Seq::new(11, |i: int| None::<Seq<char>>));
        t
    }
}

} // verus!
