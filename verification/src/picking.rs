//! Object picking: each object is drawn into a buffer of its own in a colour
//! that writes its identifier, and the pixel under the cursor tells which
//! object was picked.

use vstd::prelude::*;

verus! {

/// The number whose bytes are the four channels of `color`, red first.
pub open spec fn channels_as_number(color: (u8, u8, u8, u8)) -> int {
    color.0 * 0x100_0000 + color.1 * 0x1_0000 + color.2 * 0x100 + color.3
}

/// The identifier that a pixel of the picking buffer stands for. The buffer
/// is cleared to white, so white all over stands for no object.
pub fn color_to_id(color: &(u8, u8, u8, u8)) -> (id: Option<u32>)
    ensures
        id == if *color == (255u8, 255u8, 255u8, 255u8) {
            None
        } else {
            Some(channels_as_number(*color) as u32)
        },
{
    let (red, green, blue, alpha) = *color;
    if red == 255 && green == 255 && blue == 255 && alpha == 255 {
        None
    } else {
        let id = ((red as u32) << 24) | ((green as u32) << 16) | ((blue as u32) << 8) | (alpha as u32);
        assert(id == red as u32 * 0x100_0000 + green as u32 * 0x1_0000 + blue as u32 * 0x100
            + alpha as u32) by (bit_vector)
            requires
                id == ((red as u32) << 24) | ((green as u32) << 16) | ((blue as u32) << 8) | (
                alpha as u32),
        ;
        Some(id)
    }
}

} // verus!
