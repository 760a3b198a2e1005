//! The window: where each pixel of the screen goes.
//!
//! The window shows every pixel of the 64 by 32 screen as a square of
//! `SCALE` by `SCALE` window points, rows from the top and columns from the
//! left.

use vstd::prelude::*;
use crate::model::{SCREEN_SIZE, SCREEN_WIDTH};

verus! {

/// Side of the square that shows one pixel, in window points.
pub const SCALE: u32 = 15;

/// Width of the window.
pub const WINDOW_WIDTH: u32 = 64 * SCALE;

/// Height of the window.
pub const WINDOW_HEIGHT: u32 = 32 * SCALE;

/// A rectangle of the window: its top left corner and its size.
#[derive(Clone, Copy, Debug, PartialEq, Eq, Structural)]
pub struct PixelRect {
    pub x: i32,
    pub y: i32,
    pub width: u32,
    pub height: u32,
}

/// The square that shows the pixel at index `idx` of the screen.
pub open spec fn spec_pixel_rect(idx: int) -> PixelRect {
    PixelRect {
        x: ((idx % 64) * SCALE) as i32,
        y: ((idx / 64) * SCALE) as i32,
        width: SCALE,
        height: SCALE,
    }
}

/// The square that shows the pixel at index `idx` of the screen. The index
/// may lie beyond the screen, as long as the square's corner can be
/// expressed.
pub fn pixel_rect(idx: usize) -> (rect: PixelRect)
    requires
        (idx / 64) * SCALE <= i32::MAX,
    ensures
        rect == spec_pixel_rect(idx as int),
        rect.x == (idx % 64) * SCALE,
        rect.y == (idx / 64) * SCALE,
{
    let x: u32 = (idx % SCREEN_WIDTH) as u32;
    let y: u32 = (idx / SCREEN_WIDTH) as u32;
    PixelRect { x: (x * SCALE) as i32, y: (y * SCALE) as i32, width: SCALE, height: SCALE }
}

/// Law of the window: the square of every pixel of the screen lies within
/// the window, and the squares of two different pixels do not overlap.
pub proof fn lemma_squares_tile_the_window(p: int, q: int)
    requires
        0 <= p < SCREEN_SIZE,
        0 <= q < SCREEN_SIZE,
    ensures
        ({
            let a = spec_pixel_rect(p);
            let b = spec_pixel_rect(q);
            &&& 0 <= a.x && a.x + a.width <= WINDOW_WIDTH
            &&& 0 <= a.y && a.y + a.height <= WINDOW_HEIGHT
            &&& p != q ==> (a.x + a.width <= b.x || b.x + b.width <= a.x || a.y + a.height <= b.y
                || b.y + b.height <= a.y)
        }),
{
}

} // verus!
