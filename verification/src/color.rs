use vstd::prelude::*;

verus! {

/// A colour written as `0xRRGGBB`; bits above the lowest 24 are ignored.
pub struct HexColor(pub u32);

impl HexColor {
    /// The red channel: bits 16..24.
    pub open spec fn spec_red(self) -> u8 {
        ((self.0 >> 16u32) & 0xFFu32) as u8
    }

    /// The green channel: bits 8..16.
    pub open spec fn spec_green(self) -> u8 {
        ((self.0 >> 8u32) & 0xFFu32) as u8
    }

    /// The blue channel: bits 0..8.
    pub open spec fn spec_blue(self) -> u8 {
        (self.0 & 0xFFu32) as u8
    }

    /// Splits the colour into its 8-bit `(red, green, blue)` channels.
    pub fn channels(&self) -> (rgb: (u8, u8, u8))
        ensures
            rgb == (self.spec_red(), self.spec_green(), self.spec_blue()),
    {
        let v = self.0;
        let r = ((v >> 16u32) & 0xFFu32) as u8;
        let g = ((v >> 8u32) & 0xFFu32) as u8;
        let b = (v & 0xFFu32) as u8;
        (r, g, b)
    }
}

/// The channels hold the colour's lowest 24 bits: put back together, they give `0xRRGGBB`.
pub proof fn law_channels_recompose(hex: u32)
    ensures
        ({
            let c = HexColor(hex);
            (c.spec_red() as u32) << 16u32 | (c.spec_green() as u32) << 8u32 | (c.spec_blue() as u32) == hex & 0xFF_FFFFu32
        }),
{
    let r = ((hex >> 16u32) & 0xFFu32) as u8;
    let g = ((hex >> 8u32) & 0xFFu32) as u8;
    let b = (hex & 0xFFu32) as u8;
    assert((r as u32) == (hex >> 16u32) & 0xFFu32) by (bit_vector)
        requires r == ((hex >> 16u32) & 0xFFu32) as u8;
    assert((g as u32) == (hex >> 8u32) & 0xFFu32) by (bit_vector)
        requires g == ((hex >> 8u32) & 0xFFu32) as u8;
    assert((b as u32) == hex & 0xFFu32) by (bit_vector)
        requires b == (hex & 0xFFu32) as u8;
    assert((((hex >> 16u32) & 0xFFu32) << 16u32 | ((hex >> 8u32) & 0xFFu32) << 8u32 | (hex & 0xFFu32)) == hex & 0xFF_FFFFu32) by (bit_vector);
}

} // verus!
