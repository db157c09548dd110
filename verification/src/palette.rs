//! The fixed system palette: the 64 colours that the video hardware can show.

use vstd::prelude::*;
use crate::error::NesError;

verus! {

/// A colour of the frame buffer.
#[derive(Clone, Copy, Debug, PartialEq, Eq, Structural)]
pub struct Rgb {
    pub r: u8,
    pub g: u8,
    pub b: u8,
}

/// The number of entries of the system palette.
pub const SYSTEM_COLORS: u8 = 64;

/// The colour that the system palette holds at `idx`; black beyond its end.
pub open spec fn system_color(idx: u8) -> Rgb {
    match idx {
        0x00 => Rgb { r: 98, g: 98, b: 98 },
        0x01 => Rgb { r: 0, g: 31, b: 178 },
        0x02 => Rgb { r: 36, g: 4, b: 200 },
        0x03 => Rgb { r: 82, g: 0, b: 178 },
        0x04 => Rgb { r: 115, g: 0, b: 118 },
        0x05 => Rgb { r: 128, g: 0, b: 36 },
        0x06 => Rgb { r: 115, g: 11, b: 0 },
        0x07 => Rgb { r: 82, g: 40, b: 0 },
        0x08 => Rgb { r: 36, g: 68, b: 0 },
        0x09 => Rgb { r: 0, g: 87, b: 0 },
        0x0A => Rgb { r: 0, g: 92, b: 0 },
        0x0B => Rgb { r: 0, g: 83, b: 36 },
        0x0C => Rgb { r: 0, g: 60, b: 118 },
        0x0D => Rgb { r: 0, g: 0, b: 0 },
        0x0E => Rgb { r: 0, g: 0, b: 0 },
        0x0F => Rgb { r: 0, g: 0, b: 0 },
        0x10 => Rgb { r: 171, g: 171, b: 171 },
        0x11 => Rgb { r: 13, g: 87, b: 255 },
        0x12 => Rgb { r: 75, g: 48, b: 255 },
        0x13 => Rgb { r: 138, g: 19, b: 255 },
        0x14 => Rgb { r: 118, g: 8, b: 214 },
        0x15 => Rgb { r: 210, g: 18, b: 105 },
        0x16 => Rgb { r: 199, g: 46, b: 0 },
        0x17 => Rgb { r: 157, g: 84, b: 0 },
        0x18 => Rgb { r: 96, g: 123, b: 0 },
        0x19 => Rgb { r: 32, g: 152, b: 0 },
        0x1A => Rgb { r: 0, g: 163, b: 0 },
        0x1B => Rgb { r: 0, g: 153, b: 66 },
        0x1C => Rgb { r: 0, g: 125, b: 180 },
        0x1D => Rgb { r: 0, g: 0, b: 0 },
        0x1E => Rgb { r: 0, g: 0, b: 0 },
        0x1F => Rgb { r: 0, g: 0, b: 0 },
        0x20 => Rgb { r: 255, g: 255, b: 255 },
        0x21 => Rgb { r: 83, g: 174, b: 255 },
        0x22 => Rgb { r: 144, g: 133, b: 255 },
        0x23 => Rgb { r: 211, g: 101, b: 255 },
        0x24 => Rgb { r: 255, g: 87, b: 255 },
        0x25 => Rgb { r: 255, g: 93, b: 207 },
        0x26 => Rgb { r: 255, g: 119, b: 87 },
        0x27 => Rgb { r: 250, g: 158, b: 0 },
        0x28 => Rgb { r: 189, g: 199, b: 0 },
        0x29 => Rgb { r: 122, g: 231, b: 0 },
        0x2A => Rgb { r: 67, g: 246, b: 17 },
        0x2B => Rgb { r: 38, g: 239, b: 126 },
        0x2C => Rgb { r: 44, g: 213, b: 246 },
        0x2D => Rgb { r: 78, g: 78, b: 78 },
        0x2E => Rgb { r: 0, g: 0, b: 0 },
        0x2F => Rgb { r: 0, g: 0, b: 0 },
        0x30 => Rgb { r: 255, g: 255, b: 255 },
        0x31 => Rgb { r: 182, g: 255, b: 255 },
        0x32 => Rgb { r: 206, g: 209, b: 255 },
        0x33 => Rgb { r: 233, g: 195, b: 255 },
        0x34 => Rgb { r: 255, g: 188, b: 255 },
        0x35 => Rgb { r: 255, g: 189, b: 244 },
        0x36 => Rgb { r: 255, g: 198, b: 195 },
        0x37 => Rgb { r: 255, g: 213, b: 154 },
        0x38 => Rgb { r: 233, g: 230, b: 129 },
        0x39 => Rgb { r: 206, g: 244, b: 129 },
        0x3A => Rgb { r: 182, g: 251, b: 154 },
        0x3B => Rgb { r: 169, g: 250, b: 195 },
        0x3C => Rgb { r: 169, g: 240, b: 244 },
        0x3D => Rgb { r: 184, g: 184, b: 184 },
        0x3E => Rgb { r: 0, g: 0, b: 0 },
        0x3F => Rgb { r: 0, g: 0, b: 0 },
        _ => Rgb { r: 0, g: 0, b: 0 },
    }
}

/// Looks a colour index up in the system palette. Indices from 64 on name no
/// colour and are refused.
pub fn lookup_palette_color(idx: u8) -> (r: Result<Rgb, NesError>)
    ensures
        idx < SYSTEM_COLORS ==> r == Ok::<Rgb, NesError>(system_color(idx)),
        idx >= SYSTEM_COLORS ==> r == Err::<Rgb, NesError>(NesError::BadColor),
{
    if idx >= SYSTEM_COLORS {
        return Err(NesError::BadColor);
    }
    Ok(
        match idx {
            0x00 => Rgb { r: 98, g: 98, b: 98 },
            0x01 => Rgb { r: 0, g: 31, b: 178 },
            0x02 => Rgb { r: 36, g: 4, b: 200 },
            0x03 => Rgb { r: 82, g: 0, b: 178 },
            0x04 => Rgb { r: 115, g: 0, b: 118 },
            0x05 => Rgb { r: 128, g: 0, b: 36 },
            0x06 => Rgb { r: 115, g: 11, b: 0 },
            0x07 => Rgb { r: 82, g: 40, b: 0 },
            0x08 => Rgb { r: 36, g: 68, b: 0 },
            0x09 => Rgb { r: 0, g: 87, b: 0 },
            0x0A => Rgb { r: 0, g: 92, b: 0 },
            0x0B => Rgb { r: 0, g: 83, b: 36 },
            0x0C => Rgb { r: 0, g: 60, b: 118 },
            0x0D => Rgb { r: 0, g: 0, b: 0 },
            0x0E => Rgb { r: 0, g: 0, b: 0 },
            0x0F => Rgb { r: 0, g: 0, b: 0 },
            0x10 => Rgb { r: 171, g: 171, b: 171 },
            0x11 => Rgb { r: 13, g: 87, b: 255 },
            0x12 => Rgb { r: 75, g: 48, b: 255 },
            0x13 => Rgb { r: 138, g: 19, b: 255 },
            0x14 => Rgb { r: 118, g: 8, b: 214 },
            0x15 => Rgb { r: 210, g: 18, b: 105 },
            0x16 => Rgb { r: 199, g: 46, b: 0 },
            0x17 => Rgb { r: 157, g: 84, b: 0 },
            0x18 => Rgb { r: 96, g: 123, b: 0 },
            0x19 => Rgb { r: 32, g: 152, b: 0 },
            0x1A => Rgb { r: 0, g: 163, b: 0 },
            0x1B => Rgb { r: 0, g: 153, b: 66 },
            0x1C => Rgb { r: 0, g: 125, b: 180 },
            0x1D => Rgb { r: 0, g: 0, b: 0 },
            0x1E => Rgb { r: 0, g: 0, b: 0 },
            0x1F => Rgb { r: 0, g: 0, b: 0 },
            0x20 => Rgb { r: 255, g: 255, b: 255 },
            0x21 => Rgb { r: 83, g: 174, b: 255 },
            0x22 => Rgb { r: 144, g: 133, b: 255 },
            0x23 => Rgb { r: 211, g: 101, b: 255 },
            0x24 => Rgb { r: 255, g: 87, b: 255 },
            0x25 => Rgb { r: 255, g: 93, b: 207 },
            0x26 => Rgb { r: 255, g: 119, b: 87 },
            0x27 => Rgb { r: 250, g: 158, b: 0 },
            0x28 => Rgb { r: 189, g: 199, b: 0 },
            0x29 => Rgb { r: 122, g: 231, b: 0 },
            0x2A => Rgb { r: 67, g: 246, b: 17 },
            0x2B => Rgb { r: 38, g: 239, b: 126 },
            0x2C => Rgb { r: 44, g: 213, b: 246 },
            0x2D => Rgb { r: 78, g: 78, b: 78 },
            0x2E => Rgb { r: 0, g: 0, b: 0 },
            0x2F => Rgb { r: 0, g: 0, b: 0 },
            0x30 => Rgb { r: 255, g: 255, b: 255 },
            0x31 => Rgb { r: 182, g: 255, b: 255 },
            0x32 => Rgb { r: 206, g: 209, b: 255 },
            0x33 => Rgb { r: 233, g: 195, b: 255 },
            0x34 => Rgb { r: 255, g: 188, b: 255 },
            0x35 => Rgb { r: 255, g: 189, b: 244 },
            0x36 => Rgb { r: 255, g: 198, b: 195 },
            0x37 => Rgb { r: 255, g: 213, b: 154 },
            0x38 => Rgb { r: 233, g: 230, b: 129 },
            0x39 => Rgb { r: 206, g: 244, b: 129 },
            0x3A => Rgb { r: 182, g: 251, b: 154 },
            0x3B => Rgb { r: 169, g: 250, b: 195 },
            0x3C => Rgb { r: 169, g: 240, b: 244 },
            0x3D => Rgb { r: 184, g: 184, b: 184 },
            0x3E => Rgb { r: 0, g: 0, b: 0 },
            0x3F => Rgb { r: 0, g: 0, b: 0 },
            _ => Rgb { r: 0, g: 0, b: 0 },
        },
    )
}

} // verus!
