//! Colors and their degradation to what the terminal supports: 24-bit,
//! the 256-colour palette, or the 16 ANSI colours.

use crate::strings::{dec_chars, push_dec_chars, string_push};
use crate::terminal::TerminalCapabilities;
use vstd::prelude::*;

verus! {

/// A color in one of four spaces.
#[derive(Debug, Clone, Copy, PartialEq, Eq, Structural)]
pub enum Color {
    Rgb(u8, u8, u8),
    Palette256(u8),
    Ansi16(AnsiColor),
    Basic(BasicColor),
}

/// The 16 ANSI colours.
#[derive(Debug, Clone, Copy, PartialEq, Eq, Structural)]
pub enum AnsiColor {
    Black,
    Red,
    Green,
    Yellow,
    Blue,
    Magenta,
    Cyan,
    White,
    BrightBlack,
    BrightRed,
    BrightGreen,
    BrightYellow,
    BrightBlue,
    BrightMagenta,
    BrightCyan,
    BrightWhite,
}

/// The 8 basic colours.
#[derive(Debug, Clone, Copy, PartialEq, Eq, Structural)]
pub enum BasicColor {
    Black,
    Red,
    Green,
    Yellow,
    Blue,
    Magenta,
    Cyan,
    White,
}

/// RGB value of an ANSI colour (VGA palette).
pub open spec fn ansi_rgb(a: AnsiColor) -> (u8, u8, u8) {
    match a {
        AnsiColor::Black => (0, 0, 0),
        AnsiColor::Red => (170, 0, 0),
        AnsiColor::Green => (0, 170, 0),
        AnsiColor::Yellow => (170, 85, 0),
        AnsiColor::Blue => (0, 0, 170),
        AnsiColor::Magenta => (170, 0, 170),
        AnsiColor::Cyan => (0, 170, 170),
        AnsiColor::White => (170, 170, 170),
        AnsiColor::BrightBlack => (85, 85, 85),
        AnsiColor::BrightRed => (255, 85, 85),
        AnsiColor::BrightGreen => (85, 255, 85),
        AnsiColor::BrightYellow => (255, 255, 85),
        AnsiColor::BrightBlue => (85, 85, 255),
        AnsiColor::BrightMagenta => (255, 85, 255),
        AnsiColor::BrightCyan => (85, 255, 255),
        AnsiColor::BrightWhite => (255, 255, 255),
    }
}

/// SGR foreground code of an ANSI colour: 30..=37, bright 90..=97.
pub open spec fn ansi_fg_code(a: AnsiColor) -> nat {
    match a {
        AnsiColor::Black => 30,
        AnsiColor::Red => 31,
        AnsiColor::Green => 32,
        AnsiColor::Yellow => 33,
        AnsiColor::Blue => 34,
        AnsiColor::Magenta => 35,
        AnsiColor::Cyan => 36,
        AnsiColor::White => 37,
        AnsiColor::BrightBlack => 90,
        AnsiColor::BrightRed => 91,
        AnsiColor::BrightGreen => 92,
        AnsiColor::BrightYellow => 93,
        AnsiColor::BrightBlue => 94,
        AnsiColor::BrightMagenta => 95,
        AnsiColor::BrightCyan => 96,
        AnsiColor::BrightWhite => 97,
    }
}

/// The ANSI colour with palette index `idx`; 15 and above are bright white.
pub open spec fn ansi_from_index(idx: u8) -> AnsiColor {
    if idx == 0 {
        AnsiColor::Black
    } else if idx == 1 {
        AnsiColor::Red
    } else if idx == 2 {
        AnsiColor::Green
    } else if idx == 3 {
        AnsiColor::Yellow
    } else if idx == 4 {
        AnsiColor::Blue
    } else if idx == 5 {
        AnsiColor::Magenta
    } else if idx == 6 {
        AnsiColor::Cyan
    } else if idx == 7 {
        AnsiColor::White
    } else if idx == 8 {
        AnsiColor::BrightBlack
    } else if idx == 9 {
        AnsiColor::BrightRed
    } else if idx == 10 {
        AnsiColor::BrightGreen
    } else if idx == 11 {
        AnsiColor::BrightYellow
    } else if idx == 12 {
        AnsiColor::BrightBlue
    } else if idx == 13 {
        AnsiColor::BrightMagenta
    } else if idx == 14 {
        AnsiColor::BrightCyan
    } else {
        AnsiColor::BrightWhite
    }
}

/// The ANSI colour a basic colour names.
pub open spec fn basic_to_ansi(b: BasicColor) -> AnsiColor {
    match b {
        BasicColor::Black => AnsiColor::Black,
        BasicColor::Red => AnsiColor::Red,
        BasicColor::Green => AnsiColor::Green,
        BasicColor::Yellow => AnsiColor::Yellow,
        BasicColor::Blue => AnsiColor::Blue,
        BasicColor::Magenta => AnsiColor::Magenta,
        BasicColor::Cyan => AnsiColor::Cyan,
        BasicColor::White => AnsiColor::White,
    }
}

/// Nearest 256-palette index: the grey ramp for greys (16 below 8, 231
/// above 248, the ramp's last entry 255 at 248), else the 6x6x6 colour cube.
pub open spec fn rgb_256(r: u8, g: u8, b: u8) -> u8 {
    if r == g && g == b {
        if r < 8 {
            16
        } else if r > 248 {
            231
        } else if r == 248 {
            255
        } else {
            ((r - 8) / 10 + 232) as u8
        }
    } else {
        (16 + 36 * (r * 5 / 255) + 6 * (g * 5 / 255) + b * 5 / 255) as u8
    }
}

/// RGB value of a 256-palette index.
pub open spec fn palette_rgb(idx: u8) -> (u8, u8, u8) {
    if idx < 16 {
        ansi_rgb(ansi_from_index(idx))
    } else if idx >= 232 {
        let gray = (8 + (idx - 232) * 10) as u8;
        (gray, gray, gray)
    } else {
        let i = idx - 16;
        ((i / 36 * 51) as u8, ((i % 36) / 6 * 51) as u8, (i % 6 * 51) as u8)
    }
}

/// Which channel is strictly largest, if one is.
pub open spec fn dominant(r: u8, g: u8, b: u8) -> Option<u8> {
    if r > g && r > b {
        Some(0u8)
    } else if g > r && g > b {
        Some(1u8)
    } else if b > r && b > g {
        Some(2u8)
    } else {
        None
    }
}

/// Nearest ANSI colour: black when very dark; otherwise the bright or dark
/// colour of the dominant channel, or of the two strong channels.
pub open spec fn rgb_ansi(r: u8, g: u8, b: u8) -> AnsiColor {
    let brightness = (r + g + b) / 3;
    if brightness < 32 {
        AnsiColor::Black
    } else if brightness > 128 {
        if r > 200 && g > 200 && b > 200 {
            AnsiColor::BrightWhite
        } else if dominant(r, g, b) == Some(0u8) {
            AnsiColor::BrightRed
        } else if dominant(r, g, b) == Some(1u8) {
            AnsiColor::BrightGreen
        } else if dominant(r, g, b) == Some(2u8) {
            AnsiColor::BrightBlue
        } else if r > 150 && g > 150 {
            AnsiColor::BrightYellow
        } else if r > 150 && b > 150 {
            AnsiColor::BrightMagenta
        } else if g > 150 && b > 150 {
            AnsiColor::BrightCyan
        } else {
            AnsiColor::White
        }
    } else {
        if dominant(r, g, b) == Some(0u8) {
            AnsiColor::Red
        } else if dominant(r, g, b) == Some(1u8) {
            AnsiColor::Green
        } else if dominant(r, g, b) == Some(2u8) {
            AnsiColor::Blue
        } else if r > 100 && g > 100 {
            AnsiColor::Yellow
        } else if r > 100 && b > 100 {
            AnsiColor::Magenta
        } else if g > 100 && b > 100 {
            AnsiColor::Cyan
        } else {
            AnsiColor::BrightBlack
        }
    }
}

/// RGB value of a colour.
pub open spec fn color_rgb(c: Color) -> (u8, u8, u8) {
    match c {
        Color::Rgb(r, g, b) => (r, g, b),
        Color::Palette256(idx) => palette_rgb(idx),
        Color::Ansi16(a) => ansi_rgb(a),
        Color::Basic(b) => ansi_rgb(basic_to_ansi(b)),
    }
}

/// `ESC [ <lead> ; 2 ; r ; g ; b m`.
pub open spec fn sgr_rgb(lead: Seq<char>, rgb: (u8, u8, u8)) -> Seq<char> {
    seq!['\x1b', '['] + lead + seq![';', '2', ';'] + dec_chars(rgb.0 as nat) + seq![';'] + dec_chars(
        rgb.1 as nat,
    ) + seq![';'] + dec_chars(rgb.2 as nat) + seq!['m']
}

/// `ESC [ <lead> ; 5 ; idx m`.
pub open spec fn sgr_256(lead: Seq<char>, idx: u8) -> Seq<char> {
    seq!['\x1b', '['] + lead + seq![';', '5', ';'] + dec_chars(idx as nat) + seq!['m']
}

/// `ESC [ code m`.
pub open spec fn sgr_code(code: nat) -> Seq<char> {
    seq!['\x1b', '['] + dec_chars(code) + seq!['m']
}

/// The foreground sequence for `c` under the given capabilities.
pub open spec fn degraded(c: Color, caps: TerminalCapabilities) -> Seq<char> {
    if caps.truecolor {
        sgr_rgb(seq!['3', '8'], color_rgb(c))
    } else if caps.colors_256 {
        sgr_256(
            seq!['3', '8'],
            match c {
                Color::Palette256(idx) => idx,
                _ => rgb_256(color_rgb(c).0, color_rgb(c).1, color_rgb(c).2),
            },
        )
    } else {
        sgr_code(
            ansi_fg_code(
                match c {
                    Color::Ansi16(a) => a,
                    Color::Basic(b) => basic_to_ansi(b),
                    _ => rgb_ansi(color_rgb(c).0, color_rgb(c).1, color_rgb(c).2),
                },
            ),
        )
    }
}

/// The background sequence for `c` under the given capabilities.
pub open spec fn degraded_bg(c: Color, caps: TerminalCapabilities) -> Seq<char> {
    let (r, g, b) = color_rgb(c);
    if caps.truecolor {
        sgr_rgb(seq!['4', '8'], (r, g, b))
    } else if caps.colors_256 {
        sgr_256(seq!['4', '8'], rgb_256(r, g, b))
    } else {
        sgr_code(ansi_fg_code(rgb_ansi(r, g, b)) + 10)
    }
}

impl AnsiColor {
    /// RGB value (VGA palette).
    pub fn to_rgb(self) -> (r: (u8, u8, u8))
        ensures
            r == ansi_rgb(self),
    {
        match self {
            AnsiColor::Black => (0, 0, 0),
            AnsiColor::Red => (170, 0, 0),
            AnsiColor::Green => (0, 170, 0),
            AnsiColor::Yellow => (170, 85, 0),
            AnsiColor::Blue => (0, 0, 170),
            AnsiColor::Magenta => (170, 0, 170),
            AnsiColor::Cyan => (0, 170, 170),
            AnsiColor::White => (170, 170, 170),
            AnsiColor::BrightBlack => (85, 85, 85),
            AnsiColor::BrightRed => (255, 85, 85),
            AnsiColor::BrightGreen => (85, 255, 85),
            AnsiColor::BrightYellow => (255, 255, 85),
            AnsiColor::BrightBlue => (85, 85, 255),
            AnsiColor::BrightMagenta => (255, 85, 255),
            AnsiColor::BrightCyan => (85, 255, 255),
            AnsiColor::BrightWhite => (255, 255, 255),
        }
    }

    /// SGR foreground code.
    pub fn fg_code(self) -> (r: u8)
        ensures
            r == ansi_fg_code(self),
    {
        match self {
            AnsiColor::Black => 30,
            AnsiColor::Red => 31,
            AnsiColor::Green => 32,
            AnsiColor::Yellow => 33,
            AnsiColor::Blue => 34,
            AnsiColor::Magenta => 35,
            AnsiColor::Cyan => 36,
            AnsiColor::White => 37,
            AnsiColor::BrightBlack => 90,
            AnsiColor::BrightRed => 91,
            AnsiColor::BrightGreen => 92,
            AnsiColor::BrightYellow => 93,
            AnsiColor::BrightBlue => 94,
            AnsiColor::BrightMagenta => 95,
            AnsiColor::BrightCyan => 96,
            AnsiColor::BrightWhite => 97,
        }
    }

    /// `ESC [ code m` for the foreground.
    pub fn to_ansi_code(self) -> (r: String)
        ensures
            r@ == sgr_code(ansi_fg_code(self)),
    {
        sgr_code_string(self.fg_code() as usize)
    }

    /// `ESC [ code m` for the background (foreground code plus 10).
    pub fn to_ansi_bg_code(self) -> (r: String)
        ensures
            r@ == sgr_code(ansi_fg_code(self) + 10),
    {
        sgr_code_string(self.fg_code() as usize + 10)
    }

    /// The ANSI colour with a palette index.
    pub fn from_index(idx: u8) -> (r: Self)
        ensures
            r == ansi_from_index(idx),
    {
        match idx {
            0 => AnsiColor::Black,
            1 => AnsiColor::Red,
            2 => AnsiColor::Green,
            3 => AnsiColor::Yellow,
            4 => AnsiColor::Blue,
            5 => AnsiColor::Magenta,
            6 => AnsiColor::Cyan,
            7 => AnsiColor::White,
            8 => AnsiColor::BrightBlack,
            9 => AnsiColor::BrightRed,
            10 => AnsiColor::BrightGreen,
            11 => AnsiColor::BrightYellow,
            12 => AnsiColor::BrightBlue,
            13 => AnsiColor::BrightMagenta,
            14 => AnsiColor::BrightCyan,
            _ => AnsiColor::BrightWhite,
        }
    }
}

impl BasicColor {
    /// RGB value.
    pub fn to_rgb(self) -> (r: (u8, u8, u8))
        ensures
            r == ansi_rgb(basic_to_ansi(self)),
    {
        match self {
            BasicColor::Black => (0, 0, 0),
            BasicColor::Red => (170, 0, 0),
            BasicColor::Green => (0, 170, 0),
            BasicColor::Yellow => (170, 85, 0),
            BasicColor::Blue => (0, 0, 170),
            BasicColor::Magenta => (170, 0, 170),
            BasicColor::Cyan => (0, 170, 170),
            BasicColor::White => (170, 170, 170),
        }
    }

    /// The ANSI colour this names.
    pub fn to_ansi(self) -> (r: AnsiColor)
        ensures
            r == basic_to_ansi(self),
    {
        match self {
            BasicColor::Black => AnsiColor::Black,
            BasicColor::Red => AnsiColor::Red,
            BasicColor::Green => AnsiColor::Green,
            BasicColor::Yellow => AnsiColor::Yellow,
            BasicColor::Blue => AnsiColor::Blue,
            BasicColor::Magenta => AnsiColor::Magenta,
            BasicColor::Cyan => AnsiColor::Cyan,
            BasicColor::White => AnsiColor::White,
        }
    }
}

fn sgr_code_string(code: usize) -> (r: String)
    ensures
        r@ == sgr_code(code as nat),
{
    let mut s = String::new();
    string_push(&mut s, '\x1b');
    string_push(&mut s, '[');
    push_dec_chars(&mut s, code);
    string_push(&mut s, 'm');
    assert(s@ =~= sgr_code(code as nat));
    s
}

fn sgr_rgb_string(lead: char, rgb: (u8, u8, u8)) -> (r: String)
    ensures
        r@ == sgr_rgb(seq![lead, '8'], rgb),
{
    let mut s = String::new();
    string_push(&mut s, '\x1b');
    string_push(&mut s, '[');
    string_push(&mut s, lead);
    string_push(&mut s, '8');
    string_push(&mut s, ';');
    string_push(&mut s, '2');
    string_push(&mut s, ';');
    push_dec_chars(&mut s, rgb.0 as usize);
    string_push(&mut s, ';');
    push_dec_chars(&mut s, rgb.1 as usize);
    string_push(&mut s, ';');
    push_dec_chars(&mut s, rgb.2 as usize);
    string_push(&mut s, 'm');
    assert(s@ =~= sgr_rgb(seq![lead, '8'], rgb));
    s
}

fn sgr_256_string(lead: char, idx: u8) -> (r: String)
    ensures
        r@ == sgr_256(seq![lead, '8'], idx),
{
    let mut s = String::new();
    string_push(&mut s, '\x1b');
    string_push(&mut s, '[');
    string_push(&mut s, lead);
    string_push(&mut s, '8');
    string_push(&mut s, ';');
    string_push(&mut s, '5');
    string_push(&mut s, ';');
    push_dec_chars(&mut s, idx as usize);
    string_push(&mut s, 'm');
    assert(s@ =~= sgr_256(seq![lead, '8'], idx));
    s
}

/// Nearest 256-palette index of an RGB value.
pub fn rgb_to_256(r: u8, g: u8, b: u8) -> (res: u8)
    ensures
        res == rgb_256(r, g, b),
{
    if r == g && g == b {
        if r < 8 {
            return 16;
        }
        if r > 248 {
            return 231;
        }
        if r == 248 {
            return 255;
        }
        return ((r - 8) / 10) + 232;
    }
    let r_idx = (r as u16 * 5 / 255) as u8;
    let g_idx = (g as u16 * 5 / 255) as u8;
    let b_idx = (b as u16 * 5 / 255) as u8;
    16 + 36 * r_idx + 6 * g_idx + b_idx
}

/// RGB value of a 256-palette index.
pub fn palette256_to_rgb(idx: u8) -> (r: (u8, u8, u8))
    ensures
        r == palette_rgb(idx),
{
    if idx < 16 {
        AnsiColor::from_index(idx).to_rgb()
    } else if idx >= 232 {
        let gray = 8 + (idx - 232) * 10;
        (gray, gray, gray)
    } else {
        let i = idx - 16;
        (i / 36 * 51, (i % 36) / 6 * 51, i % 6 * 51)
    }
}

fn dominant_channel(r: u8, g: u8, b: u8) -> (res: Option<u8>)
    ensures
        res == dominant(r, g, b),
{
    if r > g && r > b {
        Some(0)
    } else if g > r && g > b {
        Some(1)
    } else if b > r && b > g {
        Some(2)
    } else {
        None
    }
}

/// Nearest ANSI colour of an RGB value.
pub fn rgb_to_ansi16(r: u8, g: u8, b: u8) -> (res: AnsiColor)
    ensures
        res == rgb_ansi(r, g, b),
{
    let brightness = (r as u32 + g as u32 + b as u32) / 3;
    if brightness < 32 {
        return AnsiColor::Black;
    }
    let d = dominant_channel(r, g, b);
    if brightness > 128 {
        if r > 200 && g > 200 && b > 200 {
            AnsiColor::BrightWhite
        } else if d == Some(0u8) {
            AnsiColor::BrightRed
        } else if d == Some(1u8) {
            AnsiColor::BrightGreen
        } else if d == Some(2u8) {
            AnsiColor::BrightBlue
        } else if r > 150 && g > 150 {
            AnsiColor::BrightYellow
        } else if r > 150 && b > 150 {
            AnsiColor::BrightMagenta
        } else if g > 150 && b > 150 {
            AnsiColor::BrightCyan
        } else {
            AnsiColor::White
        }
    } else {
        if d == Some(0u8) {
            AnsiColor::Red
        } else if d == Some(1u8) {
            AnsiColor::Green
        } else if d == Some(2u8) {
            AnsiColor::Blue
        } else if r > 100 && g > 100 {
            AnsiColor::Yellow
        } else if r > 100 && b > 100 {
            AnsiColor::Magenta
        } else if g > 100 && b > 100 {
            AnsiColor::Cyan
        } else {
            AnsiColor::BrightBlack
        }
    }
}

impl Color {
    /// An RGB colour.
    pub fn rgb(r: u8, g: u8, b: u8) -> (c: Self)
        ensures
            c == Color::Rgb(r, g, b),
    {
        Color::Rgb(r, g, b)
    }

    /// White.
    pub fn white() -> (c: Self)
        ensures
            c == Color::Rgb(255, 255, 255),
    {
        Color::Rgb(255, 255, 255)
    }

    /// Black.
    pub fn black() -> (c: Self)
        ensures
            c == Color::Rgb(0, 0, 0),
    {
        Color::Rgb(0, 0, 0)
    }

    /// Light gray.
    pub fn light_gray() -> (c: Self)
        ensures
            c == Color::Rgb(192, 192, 192),
    {
        Color::Rgb(192, 192, 192)
    }

    /// Dark gray.
    pub fn dark_gray() -> (c: Self)
        ensures
            c == Color::Rgb(128, 128, 128),
    {
        Color::Rgb(128, 128, 128)
    }

    /// Dark purple.
    pub fn dark_purple() -> (c: Self)
        ensures
            c == Color::Rgb(58, 48, 68),
    {
        Color::Rgb(58, 48, 68)
    }

    /// RGB value of the colour.
    pub fn to_rgb(self) -> (r: (u8, u8, u8))
        ensures
            r == color_rgb(self),
    {
        match self {
            Color::Rgb(r, g, b) => (r, g, b),
            Color::Palette256(idx) => palette256_to_rgb(idx),
            Color::Ansi16(a) => a.to_rgb(),
            Color::Basic(b) => b.to_rgb(),
        }
    }

    /// Foreground escape sequence in the richest colour space the terminal supports.
    pub fn degrade(&self, caps: &TerminalCapabilities) -> (r: String)
        ensures
            r@ == degraded(*self, *caps),
    {
        if caps.truecolor {
            sgr_rgb_string('3', self.to_rgb())
        } else if caps.colors_256 {
            let idx = match *self {
                Color::Palette256(idx) => idx,
                _ => {
                    let (r, g, b) = self.to_rgb();
                    rgb_to_256(r, g, b)
                },
            };
            sgr_256_string('3', idx)
        } else {
            let ansi = match *self {
                Color::Ansi16(a) => a,
                Color::Basic(b) => b.to_ansi(),
                _ => {
                    let (r, g, b) = self.to_rgb();
                    rgb_to_ansi16(r, g, b)
                },
            };
            ansi.to_ansi_code()
        }
    }

    /// Background escape sequence in the richest colour space the terminal supports.
    pub fn bg(&self, caps: &TerminalCapabilities) -> (res: String)
        ensures
            res@ == degraded_bg(*self, *caps),
    {
        let (r, g, b) = self.to_rgb();
        if caps.truecolor {
            sgr_rgb_string('4', (r, g, b))
        } else if caps.colors_256 {
            sgr_256_string('4', rgb_to_256(r, g, b))
        } else {
            rgb_to_ansi16(r, g, b).to_ansi_bg_code()
        }
    }
}

} // verus!
