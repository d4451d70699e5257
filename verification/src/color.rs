//! The color value type: a 24-bit RGB color with implicit full opacity,
//! always built from a hexadecimal constant of the form `0xRRGGBB`.

use vstd::prelude::*;

verus! {

/// One color: red, green and blue channels, each 8 bits wide. The alpha
/// channel is implicitly at full opacity and is not stored.
#[derive(Clone, Copy, Debug, PartialEq, Eq, Hash, Structural)]
pub struct Rgb {
    pub red: u8,
    pub green: u8,
    pub blue: u8,
}

/// The color denoted by the 24-bit constant `hex`, read as `0xRRGGBB`:
/// the highest byte is the red channel, the middle byte the green one,
/// the lowest byte the blue one. Bits above the 24th are ignored.
pub open spec fn spec_rgb(hex: u32) -> Rgb {
    Rgb {
        red: ((hex / 0x10000) % 0x100) as u8,
        green: ((hex / 0x100) % 0x100) as u8,
        blue: (hex % 0x100) as u8,
    }
}

impl Rgb {
    /// Builds the color written as the 24-bit constant `hex` (`0xRRGGBB`).
    pub fn from_hex(hex: u32) -> (c: Rgb)
        ensures
            c == spec_rgb(hex),
    {
        Rgb {
            red: ((hex / 0x10000) % 0x100) as u8,
            green: ((hex / 0x100) % 0x100) as u8,
            blue: (hex % 0x100) as u8,
        }
    }
}

} // verus!
