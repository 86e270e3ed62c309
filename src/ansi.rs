//! The sixteen ANSI colors of the 256-color palette, and the escape codes
//! that select them.

use vstd::prelude::*;

verus! {

/// An ANSI 8-bit color. These particular colors are supported by the vast
/// majority of terminals.
#[derive(Debug, Copy, Clone, PartialEq, Eq, Structural)]
pub enum AnsiColor {
    White,
    Grey,
    DarkGrey,
    Black,
    Red,
    DarkRed,
    Yellow,
    DarkYellow,
    Green,
    DarkGreen,
    Cyan,
    DarkCyan,
    Blue,
    DarkBlue,
    Magenta,
    DarkMagenta,
}

/// The decimal digits of a number below 100.
pub open spec fn decimal(n: nat) -> Seq<char> {
    if n < 10 {
        seq![('0' as nat + n) as char]
    } else {
        seq![('0' as nat + n / 10) as char, ('0' as nat + n % 10) as char]
    }
}

/// The escape sequence start that selects a background color.
pub open spec fn bg_prefix() -> Seq<char> {
    seq!['\x1B', '[', '4', '8', ';']
}

/// The escape sequence start that selects a foreground color.
pub open spec fn fg_prefix() -> Seq<char> {
    seq!['\x1B', '[', '3', '8', ';']
}

impl AnsiColor {
    /// The index of the color in the 256-color palette.
    pub open spec fn palette_index(self) -> nat {
        match self {
            AnsiColor::White => 15,
            AnsiColor::Grey => 7,
            AnsiColor::DarkGrey => 8,
            AnsiColor::Black => 0,
            AnsiColor::Red => 9,
            AnsiColor::DarkRed => 1,
            AnsiColor::Yellow => 11,
            AnsiColor::DarkYellow => 3,
            AnsiColor::Green => 10,
            AnsiColor::DarkGreen => 2,
            AnsiColor::Cyan => 14,
            AnsiColor::DarkCyan => 6,
            AnsiColor::Blue => 12,
            AnsiColor::DarkBlue => 4,
            AnsiColor::Magenta => 13,
            AnsiColor::DarkMagenta => 5,
        }
    }

    /// The 256-color code, `5;<index>m`.
    pub open spec fn spec_code(self) -> Seq<char> {
        seq!['5', ';'] + decimal(self.palette_index()) + seq!['m']
    }

    /// The part of the escape sequence that names the color.
    pub fn ansi_256_code(&self) -> (r: &'static str)
        ensures
            r@ == self.spec_code(),
    {
        proof {
            reveal_strlit("5;15m");
            reveal_strlit("5;7m");
            reveal_strlit("5;8m");
            reveal_strlit("5;0m");
            reveal_strlit("5;9m");
            reveal_strlit("5;1m");
            reveal_strlit("5;11m");
            reveal_strlit("5;3m");
            reveal_strlit("5;10m");
            reveal_strlit("5;2m");
            reveal_strlit("5;14m");
            reveal_strlit("5;6m");
            reveal_strlit("5;12m");
            reveal_strlit("5;4m");
            reveal_strlit("5;13m");
            reveal_strlit("5;5m");
        }
        let r = match self {
            AnsiColor::White => "5;15m",
            AnsiColor::Grey => "5;7m",
            AnsiColor::DarkGrey => "5;8m",
            AnsiColor::Black => "5;0m",
            AnsiColor::Red => "5;9m",
            AnsiColor::DarkRed => "5;1m",
            AnsiColor::Yellow => "5;11m",
            AnsiColor::DarkYellow => "5;3m",
            AnsiColor::Green => "5;10m",
            AnsiColor::DarkGreen => "5;2m",
            AnsiColor::Cyan => "5;14m",
            AnsiColor::DarkCyan => "5;6m",
            AnsiColor::Blue => "5;12m",
            AnsiColor::DarkBlue => "5;4m",
            AnsiColor::Magenta => "5;13m",
            AnsiColor::DarkMagenta => "5;5m",
        };
        assert(r@ =~= self.spec_code());
        r
    }
}

/// Formats the contained color as background color.
pub struct Bg(pub AnsiColor);

/// Formats the contained color as foreground color.
pub struct Fg(pub AnsiColor);

/// Resets the background color.
pub struct ResetBg;

/// Resets the foreground color.
pub struct ResetFg;

impl Bg {
    /// The escape sequence that sets the background color.
    pub fn escape(&self) -> (r: String)
        ensures
            r@ == bg_prefix() + self.0.spec_code(),
    {
        proof { reveal_strlit("\x1B[48;"); }
        let mut r = String::from_str("\x1B[48;");
        r.append(self.0.ansi_256_code());
        assert(r@ =~= bg_prefix() + self.0.spec_code());
        r
    }
}

impl Fg {
    /// The escape sequence that sets the foreground color.
    pub fn escape(&self) -> (r: String)
        ensures
            r@ == fg_prefix() + self.0.spec_code(),
    {
        proof { reveal_strlit("\x1B[38;"); }
        let mut r = String::from_str("\x1B[38;");
        r.append(self.0.ansi_256_code());
        assert(r@ =~= fg_prefix() + self.0.spec_code());
        r
    }
}

impl ResetBg {
    /// The escape sequence that resets the background color.
    pub fn escape(&self) -> (r: &'static str)
        ensures
            r@ == seq!['\x1B', '[', '4', '9', 'm'],
    {
        proof { reveal_strlit("\x1B[49m"); }
        let r = "\x1B[49m";
        assert(r@ =~= seq!['\x1B', '[', '4', '9', 'm']);
        r
    }
}

impl ResetFg {
    /// The escape sequence that resets the foreground color.
    pub fn escape(&self) -> (r: &'static str)
        ensures
            r@ == seq!['\x1B', '[', '3', '9', 'm'],
    {
        proof { reveal_strlit("\x1B[39m"); }
        let r = "\x1B[39m";
        assert(r@ =~= seq!['\x1B', '[', '3', '9', 'm']);
        r
    }
}

} // verus!
