//! How a color was written, or is to be written.

use vstd::prelude::*;

use crate::space::ColorSpace;

verus! {

/// The notation of a color: components in a color space, hex, or an HTML
/// color name.
#[derive(Debug, Copy, Clone, PartialEq, Eq, Structural)]
pub enum ColorFormat {
    Normal(ColorSpace),
    Hex,
    Html,
}

impl Default for ColorFormat {
    fn default() -> (r: ColorFormat)
        ensures
            r == ColorFormat::Hex,
    {
        ColorFormat::Hex
    }
}

} // verus!
