//! Colours, the user's colour choice, and how a requested colour is degraded to
//! what the terminal can show.
use vstd::prelude::*;

verus! {

/// The sixteen standard terminal colours, in palette order.
#[derive(Debug, Clone, Copy, PartialEq, Eq, Structural)]
pub enum AnsiColor {
    Black,
    Red,
    Green,
    Yellow,
    Blue,
    Magenta,
    Cyan,
    White,
    BrightBlack,
    BrightRed,
    BrightGreen,
    BrightYellow,
    BrightBlue,
    BrightMagenta,
    BrightCyan,
    BrightWhite,
}

/// The palette entry at position `i` (`i < 16`).
pub open spec fn ansi_at(i: int) -> AnsiColor {
    if i == 0 { AnsiColor::Black }
    else if i == 1 { AnsiColor::Red }
    else if i == 2 { AnsiColor::Green }
    else if i == 3 { AnsiColor::Yellow }
    else if i == 4 { AnsiColor::Blue }
    else if i == 5 { AnsiColor::Magenta }
    else if i == 6 { AnsiColor::Cyan }
    else if i == 7 { AnsiColor::White }
    else if i == 8 { AnsiColor::BrightBlack }
    else if i == 9 { AnsiColor::BrightRed }
    else if i == 10 { AnsiColor::BrightGreen }
    else if i == 11 { AnsiColor::BrightYellow }
    else if i == 12 { AnsiColor::BrightBlue }
    else if i == 13 { AnsiColor::BrightMagenta }
    else if i == 14 { AnsiColor::BrightCyan }
    else { AnsiColor::BrightWhite }
}

impl AnsiColor {
    /// The position of this colour in the palette.
    pub open spec fn index(self) -> int {
        match self {
            AnsiColor::Black => 0,
            AnsiColor::Red => 1,
            AnsiColor::Green => 2,
            AnsiColor::Yellow => 3,
            AnsiColor::Blue => 4,
            AnsiColor::Magenta => 5,
            AnsiColor::Cyan => 6,
            AnsiColor::White => 7,
            AnsiColor::BrightBlack => 8,
            AnsiColor::BrightRed => 9,
            AnsiColor::BrightGreen => 10,
            AnsiColor::BrightYellow => 11,
            AnsiColor::BrightBlue => 12,
            AnsiColor::BrightMagenta => 13,
            AnsiColor::BrightCyan => 14,
            AnsiColor::BrightWhite => 15,
        }
    }

    /// The palette entry at position `i`.
    pub fn from_index(i: usize) -> (r: AnsiColor)
        requires
            i < 16,
        ensures
            r == ansi_at(i as int),
            r.index() == i,
    {
        match i {
            0 => AnsiColor::Black,
            1 => AnsiColor::Red,
            2 => AnsiColor::Green,
            3 => AnsiColor::Yellow,
            4 => AnsiColor::Blue,
            5 => AnsiColor::Magenta,
            6 => AnsiColor::Cyan,
            7 => AnsiColor::White,
            8 => AnsiColor::BrightBlack,
            9 => AnsiColor::BrightRed,
            10 => AnsiColor::BrightGreen,
            11 => AnsiColor::BrightYellow,
            12 => AnsiColor::BrightBlue,
            13 => AnsiColor::BrightMagenta,
            14 => AnsiColor::BrightCyan,
            _ => AnsiColor::BrightWhite,
        }
    }
}

/// The token scripts use for a palette colour.
pub open spec fn ansi_name(a: AnsiColor) -> Seq<char> {
    match a {
        AnsiColor::Black => "black"@,
        AnsiColor::Red => "red"@,
        AnsiColor::Green => "green"@,
        AnsiColor::Yellow => "yellow"@,
        AnsiColor::Blue => "blue"@,
        AnsiColor::Magenta => "magenta"@,
        AnsiColor::Cyan => "cyan"@,
        AnsiColor::White => "white"@,
        AnsiColor::BrightBlack => "bright-black"@,
        AnsiColor::BrightRed => "bright-red"@,
        AnsiColor::BrightGreen => "bright-green"@,
        AnsiColor::BrightYellow => "bright-yellow"@,
        AnsiColor::BrightBlue => "bright-blue"@,
        AnsiColor::BrightMagenta => "bright-magenta"@,
        AnsiColor::BrightCyan => "bright-cyan"@,
        AnsiColor::BrightWhite => "bright-white"@,
    }
}

impl AnsiColor {
    /// The token scripts use for this colour.
    pub fn name(&self) -> (r: &'static str)
        ensures
            r@ == ansi_name(*self),
    {
        match self {
            AnsiColor::Black => "black",
            AnsiColor::Red => "red",
            AnsiColor::Green => "green",
            AnsiColor::Yellow => "yellow",
            AnsiColor::Blue => "blue",
            AnsiColor::Magenta => "magenta",
            AnsiColor::Cyan => "cyan",
            AnsiColor::White => "white",
            AnsiColor::BrightBlack => "bright-black",
            AnsiColor::BrightRed => "bright-red",
            AnsiColor::BrightGreen => "bright-green",
            AnsiColor::BrightYellow => "bright-yellow",
            AnsiColor::BrightBlue => "bright-blue",
            AnsiColor::BrightMagenta => "bright-magenta",
            AnsiColor::BrightCyan => "bright-cyan",
            AnsiColor::BrightWhite => "bright-white",
        }
    }

    /// The colour a token names, if any.
    pub fn from_name(s: &str) -> (r: Option<AnsiColor>)
        ensures
            match r {
                Some(a) => ansi_name(a) == s@,
                None => forall|a: AnsiColor| ansi_name(a) != s@,
            },
    {
        let r = if str_eq(s, "black") {
            Some(AnsiColor::Black)
        } else if str_eq(s, "red") {
            Some(AnsiColor::Red)
        } else if str_eq(s, "green") {
            Some(AnsiColor::Green)
        } else if str_eq(s, "yellow") {
            Some(AnsiColor::Yellow)
        } else if str_eq(s, "blue") {
            Some(AnsiColor::Blue)
        } else if str_eq(s, "magenta") {
            Some(AnsiColor::Magenta)
        } else if str_eq(s, "cyan") {
            Some(AnsiColor::Cyan)
        } else if str_eq(s, "white") {
            Some(AnsiColor::White)
        } else if str_eq(s, "bright-black") {
            Some(AnsiColor::BrightBlack)
        } else if str_eq(s, "bright-red") {
            Some(AnsiColor::BrightRed)
        } else if str_eq(s, "bright-green") {
            Some(AnsiColor::BrightGreen)
        } else if str_eq(s, "bright-yellow") {
            Some(AnsiColor::BrightYellow)
        } else if str_eq(s, "bright-blue") {
            Some(AnsiColor::BrightBlue)
        } else if str_eq(s, "bright-magenta") {
            Some(AnsiColor::BrightMagenta)
        } else if str_eq(s, "bright-cyan") {
            Some(AnsiColor::BrightCyan)
        } else if str_eq(s, "bright-white") {
            Some(AnsiColor::BrightWhite)
        } else {
            None
        };
        proof {
            if r is None {
                assert forall|a: AnsiColor| ansi_name(a) != s@ by {
                    match a {
                        AnsiColor::Black => {},
                        AnsiColor::Red => {},
                        AnsiColor::Green => {},
                        AnsiColor::Yellow => {},
                        AnsiColor::Blue => {},
                        AnsiColor::Magenta => {},
                        AnsiColor::Cyan => {},
                        AnsiColor::White => {},
                        AnsiColor::BrightBlack => {},
                        AnsiColor::BrightRed => {},
                        AnsiColor::BrightGreen => {},
                        AnsiColor::BrightYellow => {},
                        AnsiColor::BrightBlue => {},
                        AnsiColor::BrightMagenta => {},
                        AnsiColor::BrightCyan => {},
                        AnsiColor::BrightWhite => {},
                    }
                }
            }
        }
        r
    }
}

/// A colour as configuration asks for it: a palette entry or a 24-bit triplet.
#[derive(Debug, Clone, Copy, PartialEq, Eq, Structural)]
pub enum Color {
    Ansi(AnsiColor),
    Rgb(u8, u8, u8),
}

impl Color {
    /// A triplet from three script integers, when each is in `0..=255`.
    pub fn from_channels(r: i64, g: i64, b: i64) -> (c: Option<Color>)
        ensures
            (0 <= r <= 255 && 0 <= g <= 255 && 0 <= b <= 255) ==> c == Some(
                Color::Rgb(r as u8, g as u8, b as u8),
            ),
            !(0 <= r <= 255 && 0 <= g <= 255 && 0 <= b <= 255) ==> c is None,
    {
        if 0 <= r && r <= 255 && 0 <= g && g <= 255 && 0 <= b && b <= 255 {
            Some(Color::Rgb(r as u8, g as u8, b as u8))
        } else {
            None
        }
    }
}

/// 1 when the channel is in the upper half of its range, else 0.
pub open spec fn top_bit(c: u8) -> int {
    if c >= 0x80 { 1 } else { 0 }
}

/// Hue index: bit 0 from red, bit 1 from green, bit 2 from blue.
pub open spec fn hue_index(r: u8, g: u8, b: u8) -> int {
    top_bit(r) + 2 * top_bit(g) + 4 * top_bit(b)
}

/// Every channel lies in `[0x40, 0x80)`: a muted grey.
pub open spec fn spec_rgb_is_bright_black(r: u8, g: u8, b: u8) -> bool {
    &&& 0x40 <= r && r < 0x80
    &&& 0x40 <= g && g < 0x80
    &&& 0x40 <= b && b < 0x80
}

/// Bright when the OR of the channels reaches `0xC0`, or for a muted grey.
pub open spec fn spec_rgb_is_bright(r: u8, g: u8, b: u8) -> bool {
    (r | g | b) >= 0xC0 || spec_rgb_is_bright_black(r, g, b)
}

/// The palette entry chosen for a triplet.
pub open spec fn spec_ansi_from_rgb(r: u8, g: u8, b: u8) -> AnsiColor {
    ansi_at((if spec_rgb_is_bright(r, g, b) { 8int } else { 0int }) + hue_index(r, g, b))
}

/// A colour brought down to the palette.
pub open spec fn spec_color_to_ansi(c: Color) -> AnsiColor {
    match c {
        Color::Ansi(a) => a,
        Color::Rgb(r, g, b) => spec_ansi_from_rgb(r, g, b),
    }
}

/// A triplet is bright when the OR of its channels reaches this value.
pub const BRIGHT_THRESHOLD: u8 = 0xC0;

/// Lower bound (inclusive) of the muted-grey band of each channel.
pub const BRIGHT_BLACK_MIN: u8 = 0x40;

/// Upper bound (exclusive) of the muted-grey band of each channel.
pub const BRIGHT_BLACK_MAX: u8 = 0x80;

/// How much colour to show.
#[derive(Debug, Clone, Copy, PartialEq, Eq, Structural)]
pub enum ColorChoice {
    /// Show colours when the destination supports them.
    Auto,
    /// Show all colours.
    On,
    /// Show only the sixteen palette colours.
    Ansi,
    /// Show no colours.
    Off,
}

/// What is applied to a display value: nothing, or the given sides.
#[derive(Debug, Clone, Copy, PartialEq, Eq, Structural)]
pub enum Styling {
    /// The display value as it is.
    Plain,
    /// The display value with a foreground and/or background colour.
    Colored { fg: Option<Color>, bg: Option<Color> },
}

/// A colour choice could not be read from a configuration value.
#[derive(Debug, Clone, PartialEq, Eq)]
pub struct ChoiceError {
    /// The type name of the value that was given.
    pub from: String,
}

/// The tokens that name a colour choice, in the order they are listed to users.
pub open spec fn valid_choice_tokens() -> Seq<Seq<char>> {
    seq!["auto"@, "on"@, "off"@, "ansi"@]
}

/// The choice a token names, if any.
pub open spec fn spec_choice_of(token: Seq<char>) -> Option<ColorChoice> {
    if token == "auto"@ {
        Some(ColorChoice::Auto)
    } else if token == "on"@ {
        Some(ColorChoice::On)
    } else if token == "off"@ {
        Some(ColorChoice::Off)
    } else if token == "ansi"@ {
        Some(ColorChoice::Ansi)
    } else {
        None
    }
}

/// The token that names a choice.
pub open spec fn choice_token(c: ColorChoice) -> Seq<char> {
    match c {
        ColorChoice::Auto => "auto"@,
        ColorChoice::On => "on"@,
        ColorChoice::Off => "off"@,
        ColorChoice::Ansi => "ansi"@,
    }
}

/// The styling a choice gives to a display value with the requested colours,
/// on a destination that does or does not support colour.
pub open spec fn spec_styling(
    choice: ColorChoice,
    fg: Option<Color>,
    bg: Option<Color>,
    supports_color: bool,
) -> Styling {
    if choice == ColorChoice::Off || (fg is None && bg is None) {
        Styling::Plain
    } else {
        match choice {
            ColorChoice::Auto => if supports_color {
                Styling::Colored { fg, bg }
            } else {
                Styling::Plain
            },
            ColorChoice::Ansi => Styling::Colored {
                fg: degrade(fg),
                bg: degrade(bg),
            },
            _ => Styling::Colored { fg, bg },
        }
    }
}

/// A requested colour brought down to the palette, if one was requested.
pub open spec fn degrade(c: Option<Color>) -> Option<Color> {
    match c {
        Some(c) => Some(Color::Ansi(spec_color_to_ansi(c))),
        None => None,
    }
}

impl ColorChoice {
    /// Should colour support be detected?
    pub fn is_auto(&self) -> (r: bool)
        ensures
            r == (*self == ColorChoice::Auto),
    {
        matches!(self, ColorChoice::Auto)
    }

    /// Should colours be on?
    pub fn is_on(&self) -> (r: bool)
        ensures
            r == (*self == ColorChoice::On),
    {
        matches!(self, ColorChoice::On)
    }

    /// Should colours be limited to the sixteen palette colours?
    pub fn is_ansi(&self) -> (r: bool)
        ensures
            r == (*self == ColorChoice::Ansi),
    {
        matches!(self, ColorChoice::Ansi)
    }

    /// Should colours be off?
    pub fn is_off(&self) -> (r: bool)
        ensures
            r == (*self == ColorChoice::Off),
    {
        matches!(self, ColorChoice::Off)
    }

    /// Decides what to apply to a display value given the requested
    /// foreground and background and whether the destination supports colour.
    pub fn styling(&self, fg: Option<Color>, bg: Option<Color>, supports_color: bool) -> (r: Styling)
        ensures
            r == spec_styling(*self, fg, bg, supports_color),
    {
        if self.is_off() || (fg.is_none() && bg.is_none()) {
            return Styling::Plain;
        }
        match self {
            ColorChoice::Auto => if supports_color {
                Styling::Colored { fg, bg }
            } else {
                Styling::Plain
            },
            ColorChoice::Ansi => {
                let fg = match fg {
                    Some(c) => Some(Color::Ansi(Self::color_to_ansi(c))),
                    None => None,
                };
                let bg = match bg {
                    Some(c) => Some(Color::Ansi(Self::color_to_ansi(c))),
                    None => None,
                };
                Styling::Colored { fg, bg }
            },
            _ => Styling::Colored { fg, bg },
        }
    }

    /// Brings a colour down to the palette.
    pub fn color_to_ansi(color: Color) -> (r: AnsiColor)
        ensures
            r == spec_color_to_ansi(color),
    {
        match color {
            Color::Ansi(ansi) => ansi,
            Color::Rgb(r, g, b) => Self::ansi_from_rgb(r, g, b),
        }
    }

    /// The palette colour closest to a triplet.
    pub fn ansi_from_rgb(r: u8, g: u8, b: u8) -> (c: AnsiColor)
        ensures
            c == spec_ansi_from_rgb(r, g, b),
    {
        let brightness_index: usize = if Self::rgb_is_bright(r, g, b) { 8 } else { 0 };
        let bits: u8 = (r >> 7u8) | ((g >> 7u8) << 1u8) | ((b >> 7u8) << 2u8);
        assert(bits == hue_index(r, g, b) && bits < 8) by (bit_vector)
            requires
                bits == (r >> 7u8) | ((g >> 7u8) << 1u8) | ((b >> 7u8) << 2u8),
        ;
        let color_index: usize = bits as usize;
        AnsiColor::from_index(brightness_index + color_index)
    }

    /// Is the triplet bright?
    pub fn rgb_is_bright(r: u8, g: u8, b: u8) -> (bright: bool)
        ensures
            bright == spec_rgb_is_bright(r, g, b),
    {
        (r | g | b) >= BRIGHT_THRESHOLD || Self::rgb_is_bright_black(r, g, b)
    }

    /// Is the triplet the dark grey of the bright half of the palette?
    pub fn rgb_is_bright_black(r: u8, g: u8, b: u8) -> (grey: bool)
        ensures
            grey == spec_rgb_is_bright_black(r, g, b),
    {
        BRIGHT_BLACK_MIN <= r && r < BRIGHT_BLACK_MAX
            && BRIGHT_BLACK_MIN <= g && g < BRIGHT_BLACK_MAX
            && BRIGHT_BLACK_MIN <= b && b < BRIGHT_BLACK_MAX
    }

    /// Reads a choice from a configuration value: `token` is the value's text
    /// when it is a string, and `None` when it is not; `kind` names the
    /// value's type for the error.
    pub fn from_token(kind: &str, token: Option<&str>) -> (r: Result<ColorChoice, ChoiceError>)
        ensures
            match token {
                Some(t) => match spec_choice_of(t@) {
                    Some(c) => r == Ok::<ColorChoice, ChoiceError>(c),
                    None => r is Err && r->Err_0.from@ == kind@,
                },
                None => r is Err && r->Err_0.from@ == kind@,
            },
    {
        let t = match token {
            Some(t) => t,
            None => return Err(ChoiceError { from: kind.to_string() }),
        };
        if str_eq(t, "auto") {
            Ok(ColorChoice::Auto)
        } else if str_eq(t, "on") {
            Ok(ColorChoice::On)
        } else if str_eq(t, "off") {
            Ok(ColorChoice::Off)
        } else if str_eq(t, "ansi") {
            Ok(ColorChoice::Ansi)
        } else {
            Err(ChoiceError { from: kind.to_string() })
        }
    }
}

impl Default for ColorChoice {
    /// Colours are detected.
    fn default() -> (r: ColorChoice)
        ensures
            r == ColorChoice::Auto,
    {
        ColorChoice::Auto
    }
}

impl ChoiceError {
    /// The tokens a colour choice may be written as.
    pub fn valid_values() -> (r: Vec<&'static str>)
        ensures
            r@.len() == 4,
            forall|i: int| 0 <= i < 4 ==> #[trigger] r@[i]@ == valid_choice_tokens()[i],
    {
        let v = vec!["auto", "on", "off", "ansi"];
        proof {
            reveal_strlit("auto");
        }
        v
    }
}

/// Whether two strings hold the same characters.
pub fn str_eq(a: &str, b: &str) -> (r: bool)
    ensures
        r == (a@ == b@),
{
    let n = a.unicode_len();
    if n != b.unicode_len() {
        return false;
    }
    let mut i: usize = 0;
    while i < n
        invariant
            n == a@.len(),
            n == b@.len(),
            i <= n,
            a@.subrange(0, i as int) == b@.subrange(0, i as int),
        decreases n - i,
    {
        if a.get_char(i) != b.get_char(i) {
            assert(a@[i as int] != b@[i as int]);
            return false;
        }
        assert(a@.subrange(0, i + 1) == a@.subrange(0, i as int).push(a@[i as int]));
        assert(b@.subrange(0, i + 1) == b@.subrange(0, i as int).push(b@[i as int]));
        i = i + 1;
    }
    assert(a@ == a@.subrange(0, n as int));
    assert(b@ == b@.subrange(0, n as int));
    true
}

/// Degrading a triplet is total: it picks the palette entry at position
/// `8 * bright + hue`, a position in `0..16`, with `hue` in `0..8`.
pub proof fn ansi_from_rgb_is_total(r: u8, g: u8, b: u8)
    ensures
        0 <= hue_index(r, g, b) < 8,
        spec_ansi_from_rgb(r, g, b).index() == (if spec_rgb_is_bright(r, g, b) { 8int } else { 0int })
            + hue_index(r, g, b),
        0 <= spec_ansi_from_rgb(r, g, b).index() < 16,
{
}

/// With the choice `Off`, or with neither colour requested, a display value is
/// left as it is, whatever the other arguments.
pub proof fn off_or_colorless_is_plain(
    choice: ColorChoice,
    fg: Option<Color>,
    bg: Option<Color>,
    supports_color: bool,
)
    requires
        choice == ColorChoice::Off || (fg is None && bg is None),
    ensures
        spec_styling(choice, fg, bg, supports_color) == Styling::Plain,
{
}

/// Each choice is read back from its token; no other text names a choice.
pub proof fn choice_tokens_round_trip(c: ColorChoice, t: Seq<char>)
    ensures
        spec_choice_of(choice_token(c)) == Some(c),
        valid_choice_tokens().contains(choice_token(c)),
        !valid_choice_tokens().contains(t) ==> spec_choice_of(t) is None,
{
    reveal_strlit("auto");
    reveal_strlit("on");
    reveal_strlit("off");
    reveal_strlit("ansi");
    let v = valid_choice_tokens();
    assert(v[0] == "auto"@ && v[1] == "on"@ && v[2] == "off"@ && v[3] == "ansi"@);
    assert("auto"@ != "on"@ && "auto"@ != "off"@ && "on"@ != "off"@ && "on"@ != "ansi"@
        && "off"@ != "ansi"@) by {
        assert("auto"@.len() != "on"@.len());
        assert("auto"@.len() != "off"@.len());
        assert("on"@.len() != "off"@.len());
        assert("on"@.len() != "ansi"@.len());
        assert("off"@.len() != "ansi"@.len());
    }
    assert("auto"@ != "ansi"@) by {
        assert("auto"@[1] != "ansi"@[1]);
    }
    if t == "auto"@ { assert(v.contains(t)); }
    if t == "on"@ { assert(v.contains(t)); }
    if t == "off"@ { assert(v.contains(t)); }
    if t == "ansi"@ { assert(v.contains(t)); }
    assert(v.contains(choice_token(c)));
}

} // verus!
