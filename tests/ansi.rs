use colo::ansi::{AnsiColor, Bg, Fg, ResetBg, ResetFg};
use colo::format::ColorFormat;
use colo::space::ColorSpace;

#[test]
fn escape_codes() {
    assert_eq!(AnsiColor::White.ansi_256_code(), "5;15m");
    assert_eq!(AnsiColor::Black.ansi_256_code(), "5;0m");
    assert_eq!(Bg(AnsiColor::Red).escape(), "\x1B[48;5;9m");
    assert_eq!(Fg(AnsiColor::DarkBlue).escape(), "\x1B[38;5;4m");
    assert_eq!(ResetBg.escape(), "\x1B[49m");
    assert_eq!(ResetFg.escape(), "\x1B[39m");
}

#[test]
fn default_format_is_hex() {
    assert_eq!(ColorFormat::default(), ColorFormat::Hex);
    assert_ne!(ColorFormat::Normal(ColorSpace::Hsl), ColorFormat::Html);
}
