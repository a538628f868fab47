use steelseries_apex_oled::framebuffer::{
    BinaryColor, Framebuffer, Pixel, OPCODE_WRITE_DISPLAY, PAYLOAD_SIZE,
};
use steelseries_apex_oled::geometry::{
    bit_index, byte_index, Point, Rectangle, Size, BUFFER_SIZE, OLED_HEIGHT, OLED_WIDTH,
};

fn on(x: i32, y: i32) -> Pixel {
    Pixel(Point { x, y }, BinaryColor::On)
}

fn off(x: i32, y: i32) -> Pixel {
    Pixel(Point { x, y }, BinaryColor::Off)
}

#[test]
fn panel_constants() {
    assert_eq!(OLED_WIDTH, 128);
    assert_eq!(OLED_HEIGHT, 40);
    assert_eq!(BUFFER_SIZE, 640);
    assert_eq!(BUFFER_SIZE, (OLED_WIDTH * OLED_HEIGHT / 8) as usize);
    assert_eq!(PAYLOAD_SIZE, BUFFER_SIZE + 2);
    assert_eq!(OPCODE_WRITE_DISPLAY, 0x65);
}

#[test]
fn fresh_frame_is_blank() {
    let fb = Framebuffer::new();
    assert_eq!(fb.as_bytes().len(), 640);
    assert!(fb.as_bytes().iter().all(|b| *b == 0));
}

#[test]
fn fresh_frame_payload() {
    let fb = Framebuffer::new();
    let payload = fb.payload();
    assert_eq!(payload.len(), 642);
    assert_eq!(payload[0], 0x65);
    assert!(payload[1..641].iter().all(|b| *b == 0));
    assert_eq!(payload[641], 0x00);
}

#[test]
fn top_left_pixel_is_highest_bit_of_first_byte() {
    let mut fb = Framebuffer::new();
    fb.set_pixel(on(0, 0));
    assert_eq!(byte_index(0, 0), 0);
    assert_eq!(bit_index(0), 7);
    assert_eq!(fb.as_bytes()[0], 0x80);
    assert!(fb.as_bytes()[1..].iter().all(|b| *b == 0));
}

#[test]
fn eighth_pixel_is_lowest_bit_of_first_byte() {
    let mut fb = Framebuffer::new();
    fb.set_pixel(on(7, 0));
    assert_eq!(byte_index(7, 0), 0);
    assert_eq!(bit_index(7), 0);
    assert_eq!(fb.as_bytes()[0], 0x01);
    assert!(fb.as_bytes()[1..].iter().all(|b| *b == 0));
}

#[test]
fn index_values() {
    assert_eq!(byte_index(8, 0), 1);
    assert_eq!(bit_index(8), 7);
    assert_eq!(byte_index(127, 0), 15);
    assert_eq!(byte_index(0, 1), 16);
    assert_eq!(byte_index(9, 2), 33);
    assert_eq!(bit_index(9), 6);
    assert_eq!(byte_index(127, 39), 639);
    assert_eq!(bit_index(127), 0);
}

#[test]
fn indices_stay_in_range_over_the_panel() {
    for y in 0..40u32 {
        for x in 0..128u32 {
            assert!(byte_index(x, y) < 640);
            assert!(bit_index(x) < 8);
            assert_eq!(byte_index(x, y), ((y * 128 + x) / 8) as usize);
            assert_eq!(bit_index(x), 7 - x % 8);
        }
    }
}

#[test]
fn second_row_starts_at_byte_sixteen() {
    let mut fb = Framebuffer::new();
    fb.set_pixel(on(0, 1));
    assert_eq!(fb.as_bytes()[16], 0x80);
    assert_eq!(fb.as_bytes().iter().filter(|b| **b != 0).count(), 1);
}

#[test]
fn last_pixel_is_lowest_bit_of_last_byte() {
    let mut fb = Framebuffer::new();
    fb.set_pixel(on(127, 39));
    assert_eq!(fb.as_bytes()[639], 0x01);
    assert_eq!(fb.as_bytes().iter().filter(|b| **b != 0).count(), 1);
}

#[test]
fn write_on_then_read_back_over_the_panel() {
    for y in 0..40 {
        for x in 0..128 {
            let mut fb = Framebuffer::new();
            fb.set_pixel(on(x, y));
            assert_eq!(fb.get_pixel(Point { x, y }), Some(BinaryColor::On));
            let lit: u32 = fb.as_bytes().iter().map(|b| b.count_ones()).sum();
            assert_eq!(lit, 1);
            fb.set_pixel(off(x, y));
            assert_eq!(fb.get_pixel(Point { x, y }), Some(BinaryColor::Off));
            assert!(fb.as_bytes().iter().all(|b| *b == 0));
        }
    }
}

#[test]
fn write_leaves_neighbours_alone() {
    let mut fb = Framebuffer::new();
    fb.write_pixels(&[on(0, 0), on(1, 0), on(2, 0), on(7, 0)]);
    assert_eq!(fb.as_bytes()[0], 0b1110_0001);
    fb.set_pixel(off(1, 0));
    assert_eq!(fb.as_bytes()[0], 0b1010_0001);
    assert_eq!(fb.get_pixel(Point { x: 0, y: 0 }), Some(BinaryColor::On));
    assert_eq!(fb.get_pixel(Point { x: 1, y: 0 }), Some(BinaryColor::Off));
    assert_eq!(fb.get_pixel(Point { x: 2, y: 0 }), Some(BinaryColor::On));
}

#[test]
fn last_write_to_a_coordinate_wins() {
    let mut fb = Framebuffer::new();
    fb.write_pixels(&[on(5, 3), off(5, 3)]);
    assert_eq!(fb.get_pixel(Point { x: 5, y: 3 }), Some(BinaryColor::Off));
    assert!(fb.as_bytes().iter().all(|b| *b == 0));
    fb.write_pixels(&[off(5, 3), on(5, 3)]);
    assert_eq!(fb.get_pixel(Point { x: 5, y: 3 }), Some(BinaryColor::On));
    assert_eq!(fb.as_bytes()[48], 0b0000_0100);
}

#[test]
fn repeated_write_changes_nothing_more() {
    let mut once = Framebuffer::new();
    once.set_pixel(on(64, 20));
    let mut twice = Framebuffer::new();
    twice.set_pixel(on(64, 20));
    twice.set_pixel(on(64, 20));
    assert_eq!(once.as_bytes(), twice.as_bytes());
}

#[test]
fn writes_off_the_panel_are_dropped() {
    let mut fb = Framebuffer::new();
    fb.write_pixels(&[on(3, 3), on(100, 30)]);
    let before = *fb.as_bytes();
    let outside = [
        (128, 0),
        (0, 40),
        (128, 40),
        (129, 5),
        (5, 41),
        (-1, 0),
        (0, -1),
        (-1, -1),
        (i32::MAX, 0),
        (0, i32::MAX),
        (i32::MIN, i32::MIN),
        (1000, 1000),
    ];
    for (x, y) in outside {
        fb.set_pixel(on(x, y));
        assert_eq!(*fb.as_bytes(), before);
        fb.set_pixel(off(x, y));
        assert_eq!(*fb.as_bytes(), before);
        assert_eq!(fb.get_pixel(Point { x, y }), None);
    }
    fb.write_pixels(&[on(128, 0), off(0, 40), on(-1, -1)]);
    assert_eq!(*fb.as_bytes(), before);
}

#[test]
fn empty_write_changes_nothing() {
    let mut fb = Framebuffer::new();
    fb.set_pixel(on(10, 10));
    let before = *fb.as_bytes();
    fb.write_pixels(&[]);
    assert_eq!(*fb.as_bytes(), before);
}

#[test]
fn mixed_write_drops_only_what_is_off_the_panel() {
    let mut fb = Framebuffer::new();
    fb.write_pixels(&[on(128, 0), on(0, 0), on(0, 40), on(15, 0)]);
    assert_eq!(fb.as_bytes()[0], 0x80);
    assert_eq!(fb.as_bytes()[1], 0x01);
    assert_eq!(fb.as_bytes().iter().filter(|b| **b != 0).count(), 2);
}

#[test]
fn bounding_box_is_the_panel() {
    let mut fb = Framebuffer::new();
    let expected =
        Rectangle { top_left: Point { x: 0, y: 0 }, size: Size { width: 128, height: 40 } };
    assert_eq!(fb.bounding_box(), expected);
    fb.write_pixels(&[on(0, 0), on(127, 39), on(500, 500)]);
    assert_eq!(fb.bounding_box(), expected);
}

#[test]
fn payload_frames_the_buffer() {
    let mut fb = Framebuffer::new();
    fb.write_pixels(&[on(0, 0), on(7, 0), on(8, 0), on(127, 39), on(64, 20)]);
    let payload = fb.payload();
    assert_eq!(payload.len(), 642);
    assert_eq!(payload[0], 0x65);
    assert_eq!(&payload[1..641], &fb.as_bytes()[..]);
    assert_eq!(payload[641], 0x00);
    assert_eq!(payload[1], 0x81);
    assert_eq!(payload[2], 0x80);
    assert_eq!(payload[640], 0x01);
}

#[test]
fn payload_leaves_the_frame_as_it_is() {
    let mut fb = Framebuffer::new();
    fb.set_pixel(on(1, 1));
    let before = *fb.as_bytes();
    let first = fb.payload();
    let second = fb.payload();
    assert_eq!(first, second);
    assert_eq!(*fb.as_bytes(), before);
}
