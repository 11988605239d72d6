//! Where a pixel of the screen buffer sits on the screen.

use vstd::prelude::*;

use crate::{SCREEN_HEIGHT, SCREEN_SIZE, SCREEN_WIDTH};

verus! {

/// The column and row of pixel `index` in the row-major screen buffer.
pub fn pixel_position(index: usize) -> (r: (usize, usize))
    ensures
        r.0 == index % SCREEN_WIDTH,
        r.1 == index / SCREEN_WIDTH,
        r.1 * SCREEN_WIDTH + r.0 == index,
        r.0 < SCREEN_WIDTH,
        index < SCREEN_SIZE ==> r.1 < SCREEN_HEIGHT,
{
    (index % SCREEN_WIDTH, index / SCREEN_WIDTH)
}

} // verus!

verus! {

/// The rectangle that pixel `index` covers in a window where every pixel is
/// drawn as a `scale` by `scale` square: left edge, top edge, width, height.
pub fn pixel_rect(index: usize, scale: u32) -> (r: (i32, i32, u32, u32))
    requires
        index < SCREEN_SIZE,
        scale <= 0x100_0000,
    ensures
        r.0 == (index % SCREEN_WIDTH) * scale,
        r.1 == (index / SCREEN_WIDTH) * scale,
        r.2 == scale,
        r.3 == scale,
{
    let (x, y) = pixel_position(index);
    let (x, y) = (x as u32, y as u32);
    assert(x * scale <= 64 * 0x100_0000) by (nonlinear_arith)
        requires
            x < 64,
            scale <= 0x100_0000,
    ;
    assert(y * scale <= 32 * 0x100_0000) by (nonlinear_arith)
        requires
            y < 32,
            scale <= 0x100_0000,
    ;
    ((x * scale) as i32, (y * scale) as i32, scale, scale)
}

} // verus!
