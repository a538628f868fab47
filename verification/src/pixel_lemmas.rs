//! What pixel writes do to a frame, stated pixel by pixel.

use vstd::prelude::*;
use crate::framebuffer::{
    bit_is_set, pixel_color, put_pixel, put_pixels, with_bit, BinaryColor, Pixel,
};
use crate::geometry::{
    in_bounds, lemma_indices_injective, spec_bit_index, spec_byte_index, Point, BUFFER_SIZE,
};

verus! {

/// The colour that the last write to `(x, y)` among `pixels` gives, if any
/// of them writes there.
pub open spec fn last_write(pixels: Seq<Pixel>, x: int, y: int) -> Option<BinaryColor>
    decreases pixels.len(),
{
    if pixels.len() == 0 {
        None
    } else if pixels.last().0.x == x && pixels.last().0.y == y {
        Some(pixels.last().1)
    } else {
        last_write(pixels.drop_last(), x, y)
    }
}

/// Setting or clearing a bit makes it read as set or cleared.
pub proof fn lemma_with_bit_reads_back(byte: u8, bit: u32, color: BinaryColor)
    requires
        bit < 8,
    ensures
        bit_is_set(with_bit(byte, bit, color), bit) == (color == BinaryColor::On),
{
    assert((byte | (1u8 << bit)) & (1u8 << bit) != 0) by (bit_vector)
        requires
            bit < 8,
    ;
    assert((byte & !(1u8 << bit)) & (1u8 << bit) == 0) by (bit_vector)
        requires
            bit < 8,
    ;
}

/// Setting or clearing a bit leaves the other bits of the byte as they are.
pub proof fn lemma_with_bit_keeps_others(byte: u8, bit: u32, color: BinaryColor, other: u32)
    requires
        bit < 8,
        other < 8,
        bit != other,
    ensures
        bit_is_set(with_bit(byte, bit, color), other) == bit_is_set(byte, other),
{
    assert((byte | (1u8 << bit)) & (1u8 << other) == byte & (1u8 << other)) by (bit_vector)
        requires
            bit < 8,
            other < 8,
            bit != other,
    ;
    assert((byte & !(1u8 << bit)) & (1u8 << other) == byte & (1u8 << other)) by (bit_vector)
        requires
            bit < 8,
            other < 8,
            bit != other,
    ;
}

/// Of two changes to one bit, only the second one counts.
pub proof fn lemma_with_bit_last_wins(byte: u8, bit: u32, first: BinaryColor, second: BinaryColor)
    requires
        bit < 8,
    ensures
        with_bit(with_bit(byte, bit, first), bit, second) == with_bit(byte, bit, second),
{
    assert(((byte | (1u8 << bit)) | (1u8 << bit)) == byte | (1u8 << bit)) by (bit_vector);
    assert(((byte & !(1u8 << bit)) | (1u8 << bit)) == byte | (1u8 << bit)) by (bit_vector);
    assert(((byte | (1u8 << bit)) & !(1u8 << bit)) == byte & !(1u8 << bit)) by (bit_vector);
    assert(((byte & !(1u8 << bit)) & !(1u8 << bit)) == byte & !(1u8 << bit)) by (bit_vector);
}

/// A pixel write keeps the length of the frame.
pub proof fn lemma_put_pixel_len(bytes: Seq<u8>, pixel: Pixel)
    requires
        bytes.len() == BUFFER_SIZE,
    ensures
        put_pixel(bytes, pixel).len() == bytes.len(),
{
}

/// A pixel on the panel reads back with the colour that was written: on
/// after "on", off after "off".
pub proof fn lemma_put_pixel_reads_back(bytes: Seq<u8>, pixel: Pixel)
    requires
        bytes.len() == BUFFER_SIZE,
        in_bounds(pixel.0.x as int, pixel.0.y as int),
    ensures
        pixel_color(put_pixel(bytes, pixel), pixel.0.x as int, pixel.0.y as int) == pixel.1,
{
    let x = pixel.0.x as int;
    let y = pixel.0.y as int;
    lemma_with_bit_reads_back(bytes[spec_byte_index(x, y)], spec_bit_index(x) as u32, pixel.1);
}

/// A pixel write changes no pixel of the panel but its own.
pub proof fn lemma_put_pixel_keeps_others(bytes: Seq<u8>, pixel: Pixel, x: int, y: int)
    requires
        bytes.len() == BUFFER_SIZE,
        in_bounds(x, y),
        !(pixel.0.x == x && pixel.0.y == y),
    ensures
        pixel_color(put_pixel(bytes, pixel), x, y) == pixel_color(bytes, x, y),
{
    let px = pixel.0.x as int;
    let py = pixel.0.y as int;
    if in_bounds(px, py) && spec_byte_index(px, py) == spec_byte_index(x, y) {
        if spec_bit_index(px) == spec_bit_index(x) {
            lemma_indices_injective(px, py, x, y);
        }
        lemma_with_bit_keeps_others(
            bytes[spec_byte_index(px, py)],
            spec_bit_index(px) as u32,
            pixel.1,
            spec_bit_index(x) as u32,
        );
    }
}

/// Two writes to one coordinate leave what the second alone would leave.
pub proof fn lemma_put_pixel_last_wins(
    bytes: Seq<u8>,
    point: Point,
    first: BinaryColor,
    second: BinaryColor,
)
    requires
        bytes.len() == BUFFER_SIZE,
    ensures
        put_pixel(put_pixel(bytes, Pixel(point, first)), Pixel(point, second)) == put_pixel(
            bytes,
            Pixel(point, second),
        ),
{
    let x = point.x as int;
    let y = point.y as int;
    if in_bounds(x, y) {
        lemma_with_bit_last_wins(
            bytes[spec_byte_index(x, y)],
            spec_bit_index(x) as u32,
            first,
            second,
        );
        assert(put_pixel(put_pixel(bytes, Pixel(point, first)), Pixel(point, second)) =~= put_pixel(
            bytes,
            Pixel(point, second),
        ));
    }
}

/// A write to a coordinate off the panel leaves the frame as it is.
pub proof fn lemma_put_pixel_off_panel(bytes: Seq<u8>, pixel: Pixel)
    requires
        !in_bounds(pixel.0.x as int, pixel.0.y as int),
    ensures
        put_pixel(bytes, pixel) == bytes,
{
}

/// Writes that all lie off the panel leave the frame as it is.
pub proof fn lemma_put_pixels_off_panel(bytes: Seq<u8>, pixels: Seq<Pixel>)
    requires
        forall|k: int|
            0 <= k < pixels.len() ==> !in_bounds(
                (#[trigger] pixels[k]).0.x as int,
                pixels[k].0.y as int,
            ),
    ensures
        put_pixels(bytes, pixels) == bytes,
    decreases pixels.len(),
{
    if pixels.len() > 0 {
        lemma_put_pixels_off_panel(bytes, pixels.drop_last());
    }
}

/// Pixel writes keep the length of the frame.
pub proof fn lemma_put_pixels_len(bytes: Seq<u8>, pixels: Seq<Pixel>)
    requires
        bytes.len() == BUFFER_SIZE,
    ensures
        put_pixels(bytes, pixels).len() == bytes.len(),
    decreases pixels.len(),
{
    if pixels.len() > 0 {
        lemma_put_pixels_len(bytes, pixels.drop_last());
    }
}

/// After a run of writes, each pixel of the panel shows the colour of the
/// last write to it, and its old colour if none wrote to it.
pub proof fn lemma_put_pixels_color(bytes: Seq<u8>, pixels: Seq<Pixel>, x: int, y: int)
    requires
        bytes.len() == BUFFER_SIZE,
        in_bounds(x, y),
    ensures
        pixel_color(put_pixels(bytes, pixels), x, y) == match last_write(pixels, x, y) {
            Some(color) => color,
            None => pixel_color(bytes, x, y),
        },
    decreases pixels.len(),
{
    if pixels.len() > 0 {
        let before = put_pixels(bytes, pixels.drop_last());
        lemma_put_pixels_len(bytes, pixels.drop_last());
        lemma_put_pixels_color(bytes, pixels.drop_last(), x, y);
        if pixels.last().0.x == x && pixels.last().0.y == y {
            lemma_put_pixel_reads_back(before, pixels.last());
        } else {
            lemma_put_pixel_keeps_others(before, pixels.last(), x, y);
        }
    }
}

} // verus!
