//! The video sink's pixel format: a finished frame as 24-bit RGB pixels,
//! for the host to show.

use vstd::prelude::*;
use crate::ppu::{PpuShade, PPU_DISPLAY_HEIGHT, PPU_DISPLAY_WIDTH};

verus! {

/// Bytes of one pixel.
pub const BYTES_PER_PIXEL: usize = 3;

/// Bytes of one frame of pixels.
pub const FRAME_BYTES: usize = 69120;

/// The grey level that stands for a shade, which all three colour channels
/// of its pixel take.
pub open spec fn spec_shade_colour(shade: PpuShade) -> u8 {
    match shade {
        PpuShade::WHITE => 0xff,
        PpuShade::LIGHT => 0xaa,
        PpuShade::DARK => 0x55,
        PpuShade::BLACK => 0x00,
    }
}

pub fn shade_colour(shade: PpuShade) -> (r: u8)
    ensures
        r == spec_shade_colour(shade),
{
    match shade {
        PpuShade::WHITE => 0xff,
        PpuShade::LIGHT => 0xaa,
        PpuShade::DARK => 0x55,
        PpuShade::BLACK => 0x00,
    }
}

/// A frame as pixels, row by row without gaps: byte `k` belongs to pixel
/// `k / 3` and holds the grey level of its shade.
pub open spec fn spec_render(framebuffer: Seq<PpuShade>) -> Seq<u8> {
    Seq::new(
        FRAME_BYTES as nat,
        |k: int| spec_shade_colour(framebuffer[k / (BYTES_PER_PIXEL as int)]),
    )
}

/// Turns a frame into 24-bit RGB pixels.
pub fn render(framebuffer: &Vec<PpuShade>) -> (r: Vec<u8>)
    requires
        framebuffer@.len() == PPU_DISPLAY_WIDTH * PPU_DISPLAY_HEIGHT,
    ensures
        r@ == spec_render(framebuffer@),
{
    let mut pixels: Vec<u8> = Vec::new();
    let mut i: usize = 0;
    while i < PPU_DISPLAY_WIDTH * PPU_DISPLAY_HEIGHT
        invariant
            i <= PPU_DISPLAY_WIDTH * PPU_DISPLAY_HEIGHT,
            framebuffer@.len() == PPU_DISPLAY_WIDTH * PPU_DISPLAY_HEIGHT,
            pixels@.len() == 3 * i,
            forall|k: int|
                0 <= k < 3 * i ==> pixels@[k] == spec_shade_colour(
                    framebuffer@[k / (BYTES_PER_PIXEL as int)],
                ),
        decreases PPU_DISPLAY_WIDTH * PPU_DISPLAY_HEIGHT - i,
    {
        let colour = shade_colour(framebuffer[i]);
        pixels.push(colour);
        pixels.push(colour);
        pixels.push(colour);
        i += 1;
    }
    assert(pixels@ =~= spec_render(framebuffer@));
    pixels
}

} // verus!
