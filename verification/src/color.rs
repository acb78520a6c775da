//! Packed colours.

use vstd::prelude::*;

verus! {

/// The red, green and blue channels of a colour packed as `0xRRGGBB`, each
/// between 0 and 255. Bits above the lowest 24 are ignored.
pub open spec fn channels_of(color: u32) -> (int, int, int) {
    ((color as int / 65_536) % 256, (color as int / 256) % 256, color as int % 256)
}

/// Splits a colour packed as `0xRRGGBB` into its red, green and blue
/// channels.
pub fn srgb_channels(color: u32) -> (channels: (u8, u8, u8))
    ensures
        channels.0 == channels_of(color).0,
        channels.1 == channels_of(color).1,
        channels.2 == channels_of(color).2,
{
    let r: u32 = (color >> 16) & 0xff;
    let g: u32 = (color >> 8) & 0xff;
    let b: u32 = color & 0xff;
    assert(r == (color / 65_536) % 256 && g == (color / 256) % 256 && b == color % 256
        && r < 256 && g < 256 && b < 256) by (bit_vector)
        requires
            r == (color >> 16) & 0xff,
            g == (color >> 8) & 0xff,
            b == color & 0xff,
    ;
    (r as u8, g as u8, b as u8)
}

} // verus!
