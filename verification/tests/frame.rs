use sen_core::frame::Frame;
use sen_core::frame::HEIGHT;
use sen_core::frame::WIDTH;


#[test]
fn set_pixel_writes_rgb_bytes() {
    let mut frame = Frame::new();
    frame.set_pixel(2, 3, [0x11, 0x22, 0x33]);
    let offset = (3 * WIDTH + 2) * 3;
    assert_eq!(&frame.pixels()[offset..offset + 3], &[0x11, 0x22, 0x33]);
}

#[test]
fn set_pixel_ignores_out_of_bounds_coordinates() {
    let mut frame = Frame::new();
    frame.set_pixel(WIDTH, HEIGHT, [0xFF, 0xFF, 0xFF]);
    assert!(frame.pixels().iter().all(|byte| *byte == 0));
}
