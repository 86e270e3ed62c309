//! Color notation handling: color spaces and their component ranges, hex
//! notation, the HTML color table, and a parser for free-form color input.

pub mod ansi;
pub mod format;
pub mod hex;
pub mod html;
pub mod parse;
pub mod random;
pub mod space;
pub mod text;
