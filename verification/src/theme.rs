//! Themes: a colour scheme for the particles together with the colours of
//! the frame around them, and the names by which themes are chosen.

use crate::color::ColorScheme;
use vstd::prelude::*;

verus! {

/// What lies behind the picture.
#[derive(Clone, Copy, Debug, PartialEq, Eq, Structural)]
pub enum BackgroundMode {
    /// Whatever the terminal shows.
    Transparent,
    /// One colour, by its red, green and blue parts.
    Solid(u8, u8, u8),
}

impl Default for BackgroundMode {
    /// Nothing is painted behind the picture.
    fn default() -> (d: BackgroundMode)
        ensures
            d == BackgroundMode::Transparent,
    {
        BackgroundMode::Transparent
    }
}

/// A colour by its red, green and blue parts.
#[derive(Clone, Copy, Debug, PartialEq, Eq, Structural)]
pub struct Rgb {
    pub r: u8,
    pub g: u8,
    pub b: u8,
}

/// A complete theme.
#[derive(Clone, Copy, Debug)]
pub struct Theme {
    /// The name shown to the user.
    pub name: &'static str,
    /// The gradient that colours the particles.
    pub color_scheme: ColorScheme,
    /// Colour of the panel borders.
    pub border_color: Rgb,
    /// Colour of what has the focus.
    pub highlight_color: Rgb,
    /// Colour of text.
    pub text_color: Rgb,
    /// Colour of labels.
    pub dim_text_color: Rgb,
    /// Colour of the particles where the gradient is switched off.
    pub particle_color: Rgb,
    /// What lies behind the picture.
    pub background: BackgroundMode,
}

/// The themes by which a theme is chosen and cycled through.
#[derive(Clone, Copy, Debug, PartialEq, Eq, Structural)]
pub enum ThemeId {
    Default,
    Lagoon,
    Bluemono,
    Violet,
    Harvest,
    Midnight,
    Rainbow,
    Frost,
    DeepSpace,
    Sunset,
    Matrix,
    Amber,
}

impl Default for ThemeId {
    /// The theme of that name.
    fn default() -> (d: ThemeId)
        ensures
            d == ThemeId::Default,
    {
        ThemeId::Default
    }
}

impl ThemeId {
    pub open spec fn spec_name(&self) -> Seq<char> {
        match self {
            ThemeId::Default => "Default"@,
            ThemeId::Lagoon => "Lagoon"@,
            ThemeId::Bluemono => "Bluemono"@,
            ThemeId::Violet => "Violet"@,
            ThemeId::Harvest => "Harvest"@,
            ThemeId::Midnight => "Midnight"@,
            ThemeId::Rainbow => "Rainbow"@,
            ThemeId::Frost => "Frost"@,
            ThemeId::DeepSpace => "Deep Space"@,
            ThemeId::Sunset => "Sunset"@,
            ThemeId::Matrix => "Matrix"@,
            ThemeId::Amber => "Amber"@,
        }
    }

    pub open spec fn spec_next(&self) -> ThemeId {
        match self {
            ThemeId::Default => ThemeId::Lagoon,
            ThemeId::Lagoon => ThemeId::Bluemono,
            ThemeId::Bluemono => ThemeId::Violet,
            ThemeId::Violet => ThemeId::Harvest,
            ThemeId::Harvest => ThemeId::Midnight,
            ThemeId::Midnight => ThemeId::Rainbow,
            ThemeId::Rainbow => ThemeId::Frost,
            ThemeId::Frost => ThemeId::DeepSpace,
            ThemeId::DeepSpace => ThemeId::Sunset,
            ThemeId::Sunset => ThemeId::Matrix,
            ThemeId::Matrix => ThemeId::Amber,
            ThemeId::Amber => ThemeId::Default,
        }
    }

    pub open spec fn spec_prev(&self) -> ThemeId {
        match self {
            ThemeId::Default => ThemeId::Amber,
            ThemeId::Lagoon => ThemeId::Default,
            ThemeId::Bluemono => ThemeId::Lagoon,
            ThemeId::Violet => ThemeId::Bluemono,
            ThemeId::Harvest => ThemeId::Violet,
            ThemeId::Midnight => ThemeId::Harvest,
            ThemeId::Rainbow => ThemeId::Midnight,
            ThemeId::Frost => ThemeId::Rainbow,
            ThemeId::DeepSpace => ThemeId::Frost,
            ThemeId::Sunset => ThemeId::DeepSpace,
            ThemeId::Matrix => ThemeId::Sunset,
            ThemeId::Amber => ThemeId::Matrix,
        }
    }

    /// Position of the theme in the cycle.
    pub open spec fn spec_index(&self) -> int {
        match self {
            ThemeId::Default => 0,
            ThemeId::Lagoon => 1,
            ThemeId::Bluemono => 2,
            ThemeId::Violet => 3,
            ThemeId::Harvest => 4,
            ThemeId::Midnight => 5,
            ThemeId::Rainbow => 6,
            ThemeId::Frost => 7,
            ThemeId::DeepSpace => 8,
            ThemeId::Sunset => 9,
            ThemeId::Matrix => 10,
            ThemeId::Amber => 11,
        }
    }

    /// The configuration that the theme stands for.
    pub open spec fn spec_theme(&self) -> Theme {
        match self {
            ThemeId::Default => Theme {
                name: "Default",
                color_scheme: ColorScheme::Neon,
                border_color: Rgb { r: 0, g: 255, b: 255 },
                highlight_color: Rgb { r: 255, g: 255, b: 0 },
                text_color: Rgb { r: 255, g: 255, b: 255 },
                dim_text_color: Rgb { r: 160, g: 160, b: 160 },
                particle_color: Rgb { r: 0, g: 255, b: 255 },
                background: BackgroundMode::Solid(8, 8, 12),
            },
            ThemeId::Lagoon => Theme {
                name: "Lagoon",
                color_scheme: ColorScheme::Lagoon,
                border_color: Rgb { r: 49, g: 116, b: 143 },
                highlight_color: Rgb { r: 246, g: 193, b: 119 },
                text_color: Rgb { r: 224, g: 222, b: 244 },
                dim_text_color: Rgb { r: 144, g: 140, b: 170 },
                particle_color: Rgb { r: 156, g: 207, b: 216 },
                background: BackgroundMode::Solid(25, 23, 36),
            },
            ThemeId::Bluemono => Theme {
                name: "Bluemono",
                color_scheme: ColorScheme::Ocean,
                border_color: Rgb { r: 0, g: 0, b: 0 },
                highlight_color: Rgb { r: 0, g: 0, b: 0 },
                text_color: Rgb { r: 0, g: 0, b: 0 },
                dim_text_color: Rgb { r: 0, g: 0, b: 0 },
                particle_color: Rgb { r: 30, g: 85, b: 130 },
                background: BackgroundMode::Solid(252, 246, 248),
            },
            ThemeId::Violet => Theme {
                name: "Violet",
                color_scheme: ColorScheme::Violet,
                border_color: Rgb { r: 189, g: 147, b: 249 },
                highlight_color: Rgb { r: 241, g: 250, b: 140 },
                text_color: Rgb { r: 248, g: 248, b: 242 },
                dim_text_color: Rgb { r: 98, g: 114, b: 164 },
                particle_color: Rgb { r: 139, g: 233, b: 253 },
                background: BackgroundMode::Solid(40, 42, 54),
            },
            ThemeId::Harvest => Theme {
                name: "Harvest",
                color_scheme: ColorScheme::Harvest,
                border_color: Rgb { r: 131, g: 165, b: 152 },
                highlight_color: Rgb { r: 250, g: 189, b: 47 },
                text_color: Rgb { r: 235, g: 219, b: 178 },
                dim_text_color: Rgb { r: 146, g: 131, b: 116 },
                particle_color: Rgb { r: 254, g: 128, b: 25 },
                background: BackgroundMode::Solid(40, 40, 40),
            },
            ThemeId::Midnight => Theme {
                name: "Midnight",
                color_scheme: ColorScheme::Midnight,
                border_color: Rgb { r: 122, g: 162, b: 247 },
                highlight_color: Rgb { r: 224, g: 175, b: 104 },
                text_color: Rgb { r: 169, g: 177, b: 214 },
                dim_text_color: Rgb { r: 86, g: 95, b: 137 },
                particle_color: Rgb { r: 122, g: 162, b: 247 },
                background: BackgroundMode::Solid(26, 27, 38),
            },
            ThemeId::Rainbow => Theme {
                name: "Rainbow",
                color_scheme: ColorScheme::Plasma,
                border_color: Rgb { r: 137, g: 180, b: 250 },
                highlight_color: Rgb { r: 249, g: 226, b: 175 },
                text_color: Rgb { r: 205, g: 214, b: 244 },
                dim_text_color: Rgb { r: 108, g: 112, b: 134 },
                particle_color: Rgb { r: 203, g: 166, b: 247 },
                background: BackgroundMode::Solid(30, 30, 46),
            },
            ThemeId::Frost => Theme {
                name: "Frost",
                color_scheme: ColorScheme::Frost,
                border_color: Rgb { r: 136, g: 192, b: 208 },
                highlight_color: Rgb { r: 235, g: 203, b: 139 },
                text_color: Rgb { r: 236, g: 239, b: 244 },
                dim_text_color: Rgb { r: 76, g: 86, b: 106 },
                particle_color: Rgb { r: 136, g: 192, b: 208 },
                background: BackgroundMode::Solid(46, 52, 64),
            },
            ThemeId::DeepSpace => Theme {
                name: "Deep Space",
                color_scheme: ColorScheme::Neon,
                border_color: Rgb { r: 88, g: 166, b: 255 },
                highlight_color: Rgb { r: 255, g: 166, b: 87 },
                text_color: Rgb { r: 201, g: 209, b: 217 },
                dim_text_color: Rgb { r: 110, g: 118, b: 129 },
                particle_color: Rgb { r: 88, g: 166, b: 255 },
                background: BackgroundMode::Solid(13, 17, 23),
            },
            ThemeId::Sunset => Theme {
                name: "Sunset",
                color_scheme: ColorScheme::Sunset,
                border_color: Rgb { r: 255, g: 107, b: 107 },
                highlight_color: Rgb { r: 255, g: 230, b: 109 },
                text_color: Rgb { r: 247, g: 255, b: 247 },
                dim_text_color: Rgb { r: 180, g: 160, b: 180 },
                particle_color: Rgb { r: 255, g: 160, b: 122 },
                background: BackgroundMode::Solid(26, 20, 35),
            },
            ThemeId::Matrix => Theme {
                name: "Matrix",
                color_scheme: ColorScheme::Matrix,
                border_color: Rgb { r: 0, g: 255, b: 65 },
                highlight_color: Rgb { r: 173, g: 255, b: 47 },
                text_color: Rgb { r: 0, g: 255, b: 65 },
                dim_text_color: Rgb { r: 0, g: 128, b: 0 },
                particle_color: Rgb { r: 0, g: 255, b: 65 },
                background: BackgroundMode::Solid(10, 10, 10),
            },
            ThemeId::Amber => Theme {
                name: "Amber",
                color_scheme: ColorScheme::Amber,
                border_color: Rgb { r: 255, g: 176, b: 0 },
                highlight_color: Rgb { r: 255, g: 204, b: 0 },
                text_color: Rgb { r: 255, g: 200, b: 100 },
                dim_text_color: Rgb { r: 180, g: 120, b: 50 },
                particle_color: Rgb { r: 255, g: 176, b: 0 },
                background: BackgroundMode::Solid(26, 26, 10),
            },
        }
    }

    /// The theme that follows this one; the last is followed by the first.
    pub fn next(&self) -> (t: ThemeId)
        ensures
            t == self.spec_next(),
            t.spec_index() == (self.spec_index() + 1) % 12,
    {
        match self {
            ThemeId::Default => ThemeId::Lagoon,
            ThemeId::Lagoon => ThemeId::Bluemono,
            ThemeId::Bluemono => ThemeId::Violet,
            ThemeId::Violet => ThemeId::Harvest,
            ThemeId::Harvest => ThemeId::Midnight,
            ThemeId::Midnight => ThemeId::Rainbow,
            ThemeId::Rainbow => ThemeId::Frost,
            ThemeId::Frost => ThemeId::DeepSpace,
            ThemeId::DeepSpace => ThemeId::Sunset,
            ThemeId::Sunset => ThemeId::Matrix,
            ThemeId::Matrix => ThemeId::Amber,
            ThemeId::Amber => ThemeId::Default,
        }
    }

    /// The theme that precedes this one; the first is preceded by the last.
    pub fn prev(&self) -> (t: ThemeId)
        ensures
            t == self.spec_prev(),
            t.spec_index() == (self.spec_index() + 11) % 12,
    {
        match self {
            ThemeId::Default => ThemeId::Amber,
            ThemeId::Lagoon => ThemeId::Default,
            ThemeId::Bluemono => ThemeId::Lagoon,
            ThemeId::Violet => ThemeId::Bluemono,
            ThemeId::Harvest => ThemeId::Violet,
            ThemeId::Midnight => ThemeId::Harvest,
            ThemeId::Rainbow => ThemeId::Midnight,
            ThemeId::Frost => ThemeId::Rainbow,
            ThemeId::DeepSpace => ThemeId::Frost,
            ThemeId::Sunset => ThemeId::DeepSpace,
            ThemeId::Matrix => ThemeId::Sunset,
            ThemeId::Amber => ThemeId::Matrix,
        }
    }

    /// The name shown to the user.
    pub fn name(&self) -> (s: &'static str)
        ensures
            s@ == self.spec_name(),
    {
        match self {
            ThemeId::Default => "Default",
            ThemeId::Lagoon => "Lagoon",
            ThemeId::Bluemono => "Bluemono",
            ThemeId::Violet => "Violet",
            ThemeId::Harvest => "Harvest",
            ThemeId::Midnight => "Midnight",
            ThemeId::Rainbow => "Rainbow",
            ThemeId::Frost => "Frost",
            ThemeId::DeepSpace => "Deep Space",
            ThemeId::Sunset => "Sunset",
            ThemeId::Matrix => "Matrix",
            ThemeId::Amber => "Amber",
        }
    }

    /// The configuration that the theme stands for.
    pub fn theme(&self) -> (t: Theme)
        ensures
            t == self.spec_theme(),
            t.name@ == self.spec_name(),
    {
        match self {
            ThemeId::Default => Theme {
                name: "Default",
                color_scheme: ColorScheme::Neon,
                border_color: Rgb { r: 0, g: 255, b: 255 },
                highlight_color: Rgb { r: 255, g: 255, b: 0 },
                text_color: Rgb { r: 255, g: 255, b: 255 },
                dim_text_color: Rgb { r: 160, g: 160, b: 160 },
                particle_color: Rgb { r: 0, g: 255, b: 255 },
                background: BackgroundMode::Solid(8, 8, 12),
            },
            ThemeId::Lagoon => Theme {
                name: "Lagoon",
                color_scheme: ColorScheme::Lagoon,
                border_color: Rgb { r: 49, g: 116, b: 143 },
                highlight_color: Rgb { r: 246, g: 193, b: 119 },
                text_color: Rgb { r: 224, g: 222, b: 244 },
                dim_text_color: Rgb { r: 144, g: 140, b: 170 },
                particle_color: Rgb { r: 156, g: 207, b: 216 },
                background: BackgroundMode::Solid(25, 23, 36),
            },
            ThemeId::Bluemono => Theme {
                name: "Bluemono",
                color_scheme: ColorScheme::Ocean,
                border_color: Rgb { r: 0, g: 0, b: 0 },
                highlight_color: Rgb { r: 0, g: 0, b: 0 },
                text_color: Rgb { r: 0, g: 0, b: 0 },
                dim_text_color: Rgb { r: 0, g: 0, b: 0 },
                particle_color: Rgb { r: 30, g: 85, b: 130 },
                background: BackgroundMode::Solid(252, 246, 248),
            },
            ThemeId::Violet => Theme {
                name: "Violet",
                color_scheme: ColorScheme::Violet,
                border_color: Rgb { r: 189, g: 147, b: 249 },
                highlight_color: Rgb { r: 241, g: 250, b: 140 },
                text_color: Rgb { r: 248, g: 248, b: 242 },
                dim_text_color: Rgb { r: 98, g: 114, b: 164 },
                particle_color: Rgb { r: 139, g: 233, b: 253 },
                background: BackgroundMode::Solid(40, 42, 54),
            },
            ThemeId::Harvest => Theme {
                name: "Harvest",
                color_scheme: ColorScheme::Harvest,
                border_color: Rgb { r: 131, g: 165, b: 152 },
                highlight_color: Rgb { r: 250, g: 189, b: 47 },
                text_color: Rgb { r: 235, g: 219, b: 178 },
                dim_text_color: Rgb { r: 146, g: 131, b: 116 },
                particle_color: Rgb { r: 254, g: 128, b: 25 },
                background: BackgroundMode::Solid(40, 40, 40),
            },
            ThemeId::Midnight => Theme {
                name: "Midnight",
                color_scheme: ColorScheme::Midnight,
                border_color: Rgb { r: 122, g: 162, b: 247 },
                highlight_color: Rgb { r: 224, g: 175, b: 104 },
                text_color: Rgb { r: 169, g: 177, b: 214 },
                dim_text_color: Rgb { r: 86, g: 95, b: 137 },
                particle_color: Rgb { r: 122, g: 162, b: 247 },
                background: BackgroundMode::Solid(26, 27, 38),
            },
            ThemeId::Rainbow => Theme {
                name: "Rainbow",
                color_scheme: ColorScheme::Plasma,
                border_color: Rgb { r: 137, g: 180, b: 250 },
                highlight_color: Rgb { r: 249, g: 226, b: 175 },
                text_color: Rgb { r: 205, g: 214, b: 244 },
                dim_text_color: Rgb { r: 108, g: 112, b: 134 },
                particle_color: Rgb { r: 203, g: 166, b: 247 },
                background: BackgroundMode::Solid(30, 30, 46),
            },
            ThemeId::Frost => Theme {
                name: "Frost",
                color_scheme: ColorScheme::Frost,
                border_color: Rgb { r: 136, g: 192, b: 208 },
                highlight_color: Rgb { r: 235, g: 203, b: 139 },
                text_color: Rgb { r: 236, g: 239, b: 244 },
                dim_text_color: Rgb { r: 76, g: 86, b: 106 },
                particle_color: Rgb { r: 136, g: 192, b: 208 },
                background: BackgroundMode::Solid(46, 52, 64),
            },
            ThemeId::DeepSpace => Theme {
                name: "Deep Space",
                color_scheme: ColorScheme::Neon,
                border_color: Rgb { r: 88, g: 166, b: 255 },
                highlight_color: Rgb { r: 255, g: 166, b: 87 },
                text_color: Rgb { r: 201, g: 209, b: 217 },
                dim_text_color: Rgb { r: 110, g: 118, b: 129 },
                particle_color: Rgb { r: 88, g: 166, b: 255 },
                background: BackgroundMode::Solid(13, 17, 23),
            },
            ThemeId::Sunset => Theme {
                name: "Sunset",
                color_scheme: ColorScheme::Sunset,
                border_color: Rgb { r: 255, g: 107, b: 107 },
                highlight_color: Rgb { r: 255, g: 230, b: 109 },
                text_color: Rgb { r: 247, g: 255, b: 247 },
                dim_text_color: Rgb { r: 180, g: 160, b: 180 },
                particle_color: Rgb { r: 255, g: 160, b: 122 },
                background: BackgroundMode::Solid(26, 20, 35),
            },
            ThemeId::Matrix => Theme {
                name: "Matrix",
                color_scheme: ColorScheme::Matrix,
                border_color: Rgb { r: 0, g: 255, b: 65 },
                highlight_color: Rgb { r: 173, g: 255, b: 47 },
                text_color: Rgb { r: 0, g: 255, b: 65 },
                dim_text_color: Rgb { r: 0, g: 128, b: 0 },
                particle_color: Rgb { r: 0, g: 255, b: 65 },
                background: BackgroundMode::Solid(10, 10, 10),
            },
            ThemeId::Amber => Theme {
                name: "Amber",
                color_scheme: ColorScheme::Amber,
                border_color: Rgb { r: 255, g: 176, b: 0 },
                highlight_color: Rgb { r: 255, g: 204, b: 0 },
                text_color: Rgb { r: 255, g: 200, b: 100 },
                dim_text_color: Rgb { r: 180, g: 120, b: 50 },
                particle_color: Rgb { r: 255, g: 176, b: 0 },
                background: BackgroundMode::Solid(26, 26, 10),
            },
        }
    }
}

/// Forward and then back, or back and then forward, returns to the theme
/// one started from.
pub proof fn lemma_theme_cycle(t: ThemeId)
    ensures
        t.spec_next().spec_prev() == t,
        t.spec_prev().spec_next() == t,
{
}

/// Whether a character separates the words of a theme's name.
pub open spec fn spec_is_separator(c: char) -> bool {
    c == '-' || c == '_' || c == ' '
}

/// An upper-case letter of the basic alphabet as its lower-case letter; any
/// other character as it is.
pub open spec fn spec_fold(c: char) -> char {
    if 'A' <= c && c <= 'Z' {
        ((c as u8) + 32) as char
    } else {
        c
    }
}

/// A name without its separators and with its letters folded.
pub open spec fn spec_folded(s: Seq<char>) -> Seq<char>
    decreases s.len(),
{
    if s.len() == 0 {
        Seq::<char>::empty()
    } else if spec_is_separator(s.last()) {
        spec_folded(s.drop_last())
    } else {
        spec_folded(s.drop_last()).push(spec_fold(s.last()))
    }
}

/// The theme that a name stands for: the theme whose name it spells once
/// separators are dropped and letters folded, and the default theme for any
/// other text.
pub open spec fn spec_parse_theme(s: Seq<char>) -> ThemeId {
    let n = spec_folded(s);
    if n == "default"@ {
        ThemeId::Default
    } else if n == "lagoon"@ {
        ThemeId::Lagoon
    } else if n == "bluemono"@ {
        ThemeId::Bluemono
    } else if n == "violet"@ {
        ThemeId::Violet
    } else if n == "harvest"@ {
        ThemeId::Harvest
    } else if n == "midnight"@ {
        ThemeId::Midnight
    } else if n == "rainbow"@ {
        ThemeId::Rainbow
    } else if n == "frost"@ {
        ThemeId::Frost
    } else if n == "deepspace"@ {
        ThemeId::DeepSpace
    } else if n == "space"@ {
        ThemeId::DeepSpace
    } else if n == "sunset"@ {
        ThemeId::Sunset
    } else if n == "matrix"@ {
        ThemeId::Matrix
    } else if n == "amber"@ {
        ThemeId::Amber
    } else {
        ThemeId::Default
    }
}

/// An upper-case letter of the basic alphabet as its lower-case letter.
fn fold(c: char) -> (f: char)
    ensures
        f == spec_fold(c),
{
    if 'A' <= c && c <= 'Z' {
        ((c as u8) + 32) as char
    } else {
        c
    }
}

/// Whether the characters are exactly those of `word`.
fn spells(chars: &Vec<char>, word: &str) -> (same: bool)
    ensures
        same == (chars@ == word@),
{
    let n: usize = word.unicode_len();
    if chars.len() != n {
        return false;
    }
    let mut i: usize = 0;
    while i < n
        invariant
            i <= n,
            n == word@.len(),
            n == chars@.len(),
            forall|j: int| 0 <= j < i ==> chars@[j] == word@[j],
        decreases n - i,
    {
        if chars[i] != word.get_char(i) {
            return false;
        }
        i += 1;
    }
    assert(chars@ =~= word@);
    true
}

/// The theme that a name stands for. Case, hyphens, underscores and spaces
/// do not matter; `space` is short for `deepspace`; any other text stands
/// for the default theme.
pub fn parse_theme(s: &str) -> (id: ThemeId)
    ensures
        id == spec_parse_theme(s@),
{
    let n: usize = s.unicode_len();
    let mut folded: Vec<char> = Vec::new();
    let mut i: usize = 0;
    while i < n
        invariant
            i <= n,
            n == s@.len(),
            folded@ == spec_folded(s@.subrange(0, i as int)),
        decreases n - i,
    {
        let c: char = s.get_char(i);
        proof {
            assert(s@.subrange(0, i + 1).drop_last() =~= s@.subrange(0, i as int));
        }
        if !(c == '-' || c == '_' || c == ' ') {
            folded.push(fold(c));
        }
        i += 1;
    }
    assert(s@.subrange(0, n as int) =~= s@);
    if spells(&folded, "default") {
        ThemeId::Default
    } else if spells(&folded, "lagoon") {
        ThemeId::Lagoon
    } else if spells(&folded, "bluemono") {
        ThemeId::Bluemono
    } else if spells(&folded, "violet") {
        ThemeId::Violet
    } else if spells(&folded, "harvest") {
        ThemeId::Harvest
    } else if spells(&folded, "midnight") {
        ThemeId::Midnight
    } else if spells(&folded, "rainbow") {
        ThemeId::Rainbow
    } else if spells(&folded, "frost") {
        ThemeId::Frost
    } else if spells(&folded, "deepspace") {
        ThemeId::DeepSpace
    } else if spells(&folded, "space") {
        ThemeId::DeepSpace
    } else if spells(&folded, "sunset") {
        ThemeId::Sunset
    } else if spells(&folded, "matrix") {
        ThemeId::Matrix
    } else if spells(&folded, "amber") {
        ThemeId::Amber
    } else {
        ThemeId::Default
    }
}

} // verus!
