//! The packed bitmap that mirrors the panel, and the payload that carries it.

use vstd::prelude::*;
use crate::geometry::{
    bit_index, byte_index, in_bounds, panel_rectangle, spec_bit_index, spec_byte_index, Point,
    Rectangle, Size, BUFFER_SIZE, OLED_HEIGHT, OLED_WIDTH,
};

verus! {

/// Opcode that selects "write display buffer" on the device.
pub const OPCODE_WRITE_DISPLAY: u8 = 0x65;

/// Length of the payload of one flush: opcode, frame, one trailing zero.
pub const PAYLOAD_SIZE: usize = 642;

/// The two states of a pixel.
#[derive(Clone, Copy, Debug, PartialEq, Eq, Structural)]
pub enum BinaryColor {
    Off,
    On,
}

/// A coordinate together with the colour to give it.
#[derive(Clone, Copy, Debug, PartialEq, Eq, Structural)]
pub struct Pixel(pub Point, pub BinaryColor);

/// `byte` with bit `bit` set for `On` and cleared for `Off`.
pub open spec fn with_bit(byte: u8, bit: u32, color: BinaryColor) -> u8 {
    if color == BinaryColor::On {
        byte | (1u8 << bit)
    } else {
        byte & !(1u8 << bit)
    }
}

/// Whether bit `bit` of `byte` is set.
pub open spec fn bit_is_set(byte: u8, bit: u32) -> bool {
    byte & (1u8 << bit) != 0
}

/// The colour that `bytes` holds for the pixel `(x, y)`.
pub open spec fn pixel_color(bytes: Seq<u8>, x: int, y: int) -> BinaryColor {
    if bit_is_set(bytes[spec_byte_index(x, y)], spec_bit_index(x) as u32) {
        BinaryColor::On
    } else {
        BinaryColor::Off
    }
}

/// `bytes` after one pixel write: a pixel on the panel changes its bit, any
/// other is dropped.
pub open spec fn put_pixel(bytes: Seq<u8>, pixel: Pixel) -> Seq<u8> {
    let x = pixel.0.x as int;
    let y = pixel.0.y as int;
    if in_bounds(x, y) {
        bytes.update(
            spec_byte_index(x, y),
            with_bit(bytes[spec_byte_index(x, y)], spec_bit_index(x) as u32, pixel.1),
        )
    } else {
        bytes
    }
}

/// `bytes` after the writes of `pixels`, taken in order.
pub open spec fn put_pixels(bytes: Seq<u8>, pixels: Seq<Pixel>) -> Seq<u8>
    decreases pixels.len(),
{
    if pixels.len() == 0 {
        bytes
    } else {
        put_pixel(put_pixels(bytes, pixels.drop_last()), pixels.last())
    }
}

/// The frame with every pixel off.
pub open spec fn blank_frame() -> Seq<u8> {
    Seq::new(BUFFER_SIZE as nat, |i: int| 0u8)
}

/// The payload of one flush of `bytes`: the opcode, the frame as it is, and a
/// zero byte.
pub open spec fn frame_payload(bytes: Seq<u8>) -> Seq<u8> {
    seq![OPCODE_WRITE_DISPLAY] + bytes + seq![0u8]
}

/// The payload of a frame is `PAYLOAD_SIZE` bytes long: the opcode first,
/// then the frame byte for byte, then a zero.
pub proof fn lemma_payload_layout(bytes: Seq<u8>)
    requires
        bytes.len() == BUFFER_SIZE,
    ensures
        frame_payload(bytes).len() == PAYLOAD_SIZE,
        frame_payload(bytes)[0] == OPCODE_WRITE_DISPLAY,
        frame_payload(bytes).subrange(1, PAYLOAD_SIZE - 1) == bytes,
        frame_payload(bytes)[PAYLOAD_SIZE - 1] == 0,
{
    assert(frame_payload(bytes).subrange(1, PAYLOAD_SIZE - 1) =~= bytes);
}

/// The bitmap of one frame: `BUFFER_SIZE` bytes, rows one after another,
/// eight pixels to a byte, the leftmost pixel in the highest bit.
pub struct Framebuffer {
    bytes: [u8; BUFFER_SIZE],
}

impl View for Framebuffer {
    type V = Seq<u8>;

    closed spec fn view(&self) -> Seq<u8> {
        self.bytes@
    }
}

impl Framebuffer {
    /// A frame with every pixel off.
    pub fn new() -> (fb: Self)
        ensures
            fb@ == blank_frame(),
    {
        let fb = Framebuffer { bytes: [0u8; BUFFER_SIZE] };
        assert(fb.bytes@ =~= blank_frame());
        fb
    }

    /// A frame is always `BUFFER_SIZE` bytes long.
    pub proof fn lemma_len(&self)
        ensures
            self@.len() == BUFFER_SIZE,
    {
    }

    /// Writes one pixel: sets or clears its bit if it lies on the panel, and
    /// does nothing otherwise.
    pub fn set_pixel(&mut self, pixel: Pixel)
        ensures
            final(self)@ == put_pixel(old(self)@, pixel),
    {
        let Pixel(point, color) = pixel;
        if 0 <= point.x && 0 <= point.y {
            let x = point.x as u32;
            let y = point.y as u32;
            if x < OLED_WIDTH && y < OLED_HEIGHT {
                let i = byte_index(x, y);
                let bit = bit_index(x);
                let byte = self.bytes[i];
                let changed = match color {
                    BinaryColor::On => byte | (1u8 << bit),
                    BinaryColor::Off => byte & !(1u8 << bit),
                };
                self.bytes[i] = changed;
            }
        }
    }

    /// Reads one pixel back: its colour if it lies on the panel, `None`
    /// otherwise.
    pub fn get_pixel(&self, point: Point) -> (color: Option<BinaryColor>)
        ensures
            in_bounds(point.x as int, point.y as int) ==> color == Some(
                pixel_color(self@, point.x as int, point.y as int),
            ),
            !in_bounds(point.x as int, point.y as int) ==> color.is_none(),
    {
        if 0 <= point.x && 0 <= point.y {
            let x = point.x as u32;
            let y = point.y as u32;
            if x < OLED_WIDTH && y < OLED_HEIGHT {
                let byte = self.bytes[byte_index(x, y)];
                if byte & (1u8 << bit_index(x)) != 0 {
                    return Some(BinaryColor::On);
                } else {
                    return Some(BinaryColor::Off);
                }
            }
        }
        None
    }

    /// Writes the pixels in the order given, so that of two writes to one
    /// coordinate the later one stays. Pixels off the panel are dropped.
    pub fn write_pixels(&mut self, pixels: &[Pixel])
        ensures
            final(self)@ == put_pixels(old(self)@, pixels@),
    {
        let n = pixels.len();
        let mut k: usize = 0;
        while k < n
            invariant
                k <= n,
                n == pixels@.len(),
                self@ == put_pixels(old(self)@, pixels@.take(k as int)),
            decreases n - k,
        {
            assert(pixels@.take(k + 1).drop_last() =~= pixels@.take(k as int));
            self.set_pixel(pixels[k]);
            k += 1;
        }
        assert(pixels@.take(n as int) =~= pixels@);
    }

    /// The rectangle that the panel covers, whatever the frame holds: origin
    /// `(0, 0)`, 128 by 40 pixels.
    pub fn bounding_box(&self) -> (r: Rectangle)
        ensures
            r == panel_rectangle(),
    {
        Rectangle {
            top_left: Point { x: 0, y: 0 },
            size: Size { width: OLED_WIDTH, height: OLED_HEIGHT },
        }
    }

    /// The bytes of the frame.
    pub fn as_bytes(&self) -> (bytes: &[u8; BUFFER_SIZE])
        ensures
            bytes@ == self@,
    {
        &self.bytes
    }

    /// The payload of one flush: the opcode, then the frame byte for byte,
    /// then one zero byte.
    pub fn payload(&self) -> (out: [u8; PAYLOAD_SIZE])
        ensures
            out@ == frame_payload(self@),
    {
        let mut out = [0u8; PAYLOAD_SIZE];
        out[0] = OPCODE_WRITE_DISPLAY;
        let mut k: usize = 0;
        while k < BUFFER_SIZE
            invariant
                k <= BUFFER_SIZE,
                out@[0] == OPCODE_WRITE_DISPLAY,
                forall|j: int| 0 <= j < k ==> out@[j + 1] == self@[j],
                out@[PAYLOAD_SIZE - 1] == 0,
            decreases BUFFER_SIZE - k,
        {
            out[k + 1] = self.bytes[k];
            k += 1;
        }
        assert(out@ =~= frame_payload(self@));
        out
    }
}

} // verus!
