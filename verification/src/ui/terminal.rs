//! The terminal pane: the colors of the cells of a screen.

use vstd::prelude::*;
use crate::highlighting::Rgb;

verus! {

/// The color of a palette entry: one of the sixteen named colors, or a
/// color by its parts.
#[derive(Debug, Clone, Copy, PartialEq, Eq, Structural)]
pub enum PaletteColor {
    /// One of the sixteen standard colors, by its number.
    Named(u8),
    /// Any other color.
    Rgb(Rgb),
}

/// The step between two levels of the color cube.
pub const CUBE_STEP: u8 = 51;

/// The color of entry `idx` of the 256-color palette: the first sixteen
/// entries are the named colors; the next 216 form a cube of six levels
/// of red, green and blue; the last 24 are grays from dark to light.
pub open spec fn spec_palette_color(idx: u8) -> PaletteColor {
    if idx < 16 {
        PaletteColor::Named(idx)
    } else if idx <= 231 {
        let n = idx - 16;
        PaletteColor::Rgb(
            Rgb {
                r: ((n / 36) * CUBE_STEP) as u8,
                g: (((n / 6) % 6) * CUBE_STEP) as u8,
                b: ((n % 6) * CUBE_STEP) as u8,
            },
        )
    } else {
        let gray = ((idx - 232) * 10 + 8) as u8;
        PaletteColor::Rgb(Rgb { r: gray, g: gray, b: gray })
    }
}

/// The color of entry `idx` of the 256-color palette.
pub fn palette_color(idx: u8) -> (color: PaletteColor)
    ensures
        color == spec_palette_color(idx),
{
    if idx < 16 {
        PaletteColor::Named(idx)
    } else if idx <= 231 {
        let n: u8 = idx - 16;
        PaletteColor::Rgb(
            Rgb { r: (n / 36) * CUBE_STEP, g: ((n / 6) % 6) * CUBE_STEP, b: (n % 6) * CUBE_STEP },
        )
    } else {
        let gray: u8 = (idx - 232) * 10 + 8;
        PaletteColor::Rgb(Rgb { r: gray, g: gray, b: gray })
    }
}

} // verus!
