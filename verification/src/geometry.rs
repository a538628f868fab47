//! Fixed geometry of the panel and the mapping from a pixel to its bit.

use vstd::prelude::*;

verus! {

/// Width of the panel in pixels.
pub const OLED_WIDTH: u32 = 128;

/// Height of the panel in pixels.
pub const OLED_HEIGHT: u32 = 40;

/// Number of bytes that hold one full frame, one bit per pixel.
pub const BUFFER_SIZE: usize = 640;

/// A pixel coordinate; negative values lie off the panel.
#[derive(Clone, Copy, Debug, PartialEq, Eq, Structural)]
pub struct Point {
    pub x: i32,
    pub y: i32,
}

/// An extent in pixels.
#[derive(Clone, Copy, Debug, PartialEq, Eq, Structural)]
pub struct Size {
    pub width: u32,
    pub height: u32,
}

/// An axis-aligned rectangle, given by its top left corner and its extent.
#[derive(Clone, Copy, Debug, PartialEq, Eq, Structural)]
pub struct Rectangle {
    pub top_left: Point,
    pub size: Size,
}

/// The rectangle that the panel covers.
pub open spec fn panel_rectangle() -> Rectangle {
    Rectangle { top_left: Point { x: 0, y: 0 }, size: Size { width: 128, height: 40 } }
}

/// Whether the pixel `(x, y)` lies on the panel.
pub open spec fn in_bounds(x: int, y: int) -> bool {
    0 <= x < OLED_WIDTH && 0 <= y < OLED_HEIGHT
}

/// Index of the byte that holds the pixel `(x, y)`: rows follow each other,
/// eight pixels to a byte.
pub open spec fn spec_byte_index(x: int, y: int) -> int {
    (y * OLED_WIDTH + x) / 8
}

/// Position, within its byte, of the bit that holds a pixel of column `x`:
/// the leftmost pixel of a group of eight is bit 7.
pub open spec fn spec_bit_index(x: int) -> int {
    7 - x % 8
}

/// Byte index of an on-panel pixel.
pub fn byte_index(x: u32, y: u32) -> (i: usize)
    requires
        in_bounds(x as int, y as int),
    ensures
        i == spec_byte_index(x as int, y as int),
        i < BUFFER_SIZE,
{
    ((y * OLED_WIDTH + x) / 8) as usize
}

/// Bit index of a pixel in column `x`.
pub fn bit_index(x: u32) -> (b: u32)
    ensures
        b == spec_bit_index(x as int),
        b < 8,
{
    7 - x % 8
}

/// One frame takes one bit per pixel, and the pixels fill its bytes exactly.
pub proof fn lemma_frame_size()
    ensures
        BUFFER_SIZE == OLED_WIDTH * OLED_HEIGHT / 8,
        BUFFER_SIZE * 8 == OLED_WIDTH * OLED_HEIGHT,
{
}

/// Every pixel of the panel has its byte inside the frame and its bit inside
/// that byte.
pub proof fn lemma_indices_in_range(x: int, y: int)
    requires
        in_bounds(x, y),
    ensures
        0 <= spec_byte_index(x, y) < BUFFER_SIZE,
        0 <= spec_bit_index(x) < 8,
{
}

/// Two different pixels of the panel never share a bit.
pub proof fn lemma_indices_injective(x1: int, y1: int, x2: int, y2: int)
    requires
        in_bounds(x1, y1),
        in_bounds(x2, y2),
        spec_byte_index(x1, y1) == spec_byte_index(x2, y2),
        spec_bit_index(x1) == spec_bit_index(x2),
    ensures
        x1 == x2,
        y1 == y2,
{
}

/// Every bit of the frame belongs to exactly one pixel of the panel.
pub proof fn lemma_indices_onto(byte: int, bit: int)
    requires
        0 <= byte < BUFFER_SIZE,
        0 <= bit < 8,
    ensures
        ({
            let x = (byte % 16) * 8 + (7 - bit);
            let y = byte / 16;
            in_bounds(x, y) && spec_byte_index(x, y) == byte && spec_bit_index(x) == bit
        }),
{
}

} // verus!
