use hello_apps::canvas::{copy_pixmap_to_buffer, pack_xrgb, resize_canvas, SurfaceSize};
use vello_common::peniko::color::PremulRgba8;
use vello_common::pixmap::Pixmap;

fn px(r: u8, g: u8, b: u8, a: u8) -> PremulRgba8 {
    PremulRgba8 { r, g, b, a }
}

#[test]
fn packing_orders_red_green_blue() {
    assert_eq!(pack_xrgb(0x12, 0x34, 0x56), 0x0012_3456);
    assert_eq!(pack_xrgb(255, 255, 255), 0x00ff_ffff);
    assert_eq!(pack_xrgb(0, 0, 0), 0);
    assert_eq!(pack_xrgb(1, 2, 3), u32::from_le_bytes([3, 2, 1, 0]));
}

#[test]
fn copy_fills_buffer_and_drops_alpha() {
    let mut pixmap = Pixmap::new(2, 1);
    pixmap.set_pixel(0, 0, px(10, 20, 30, 40));
    pixmap.set_pixel(1, 0, px(0, 0, 255, 255));
    let mut buffer = vec![0xdead_beef_u32; 2];
    copy_pixmap_to_buffer(&pixmap, &mut buffer);
    assert_eq!(buffer, vec![0x000a_141e, 0x0000_00ff]);
}

#[test]
fn copy_stops_at_the_shorter() {
    let mut pixmap = Pixmap::new(2, 2);
    pixmap.set_pixel(0, 0, px(1, 1, 1, 1));
    let mut long = vec![7u32; 6];
    copy_pixmap_to_buffer(&pixmap, &mut long);
    assert_eq!(long, vec![0x0001_0101, 0, 0, 0, 7, 7]);
    let mut short = vec![7u32; 1];
    copy_pixmap_to_buffer(&pixmap, &mut short);
    assert_eq!(short, vec![0x0001_0101]);
}

#[test]
fn resize_raises_zero_sides() {
    let mut pixmap = Pixmap::new(4, 4);
    let size = resize_canvas(&mut pixmap, 0, 0);
    assert_eq!(size, SurfaceSize { width: 1, height: 1 });
    assert_eq!((pixmap.width(), pixmap.height()), (1, 1));
    assert_eq!(pixmap.data().len(), 1);
}

#[test]
fn resize_keeps_prefix_and_clears_new_pixels() {
    let mut pixmap = Pixmap::new(1, 1);
    pixmap.set_pixel(0, 0, px(9, 8, 7, 6));
    let size = resize_canvas(&mut pixmap, 3, 2);
    assert_eq!(size, SurfaceSize { width: 3, height: 2 });
    assert_eq!((pixmap.width(), pixmap.height()), (3, 2));
    assert_eq!(pixmap.data().len(), 6);
    assert_eq!(pixmap.data()[0], px(9, 8, 7, 6));
    for p in &pixmap.data()[1..] {
        assert_eq!(*p, px(0, 0, 0, 0));
    }
}

#[test]
fn resize_cuts_canvas_side_to_sixteen_bits() {
    let mut pixmap = Pixmap::new(1, 1);
    let size = resize_canvas(&mut pixmap, 65537, 2);
    assert_eq!(size, SurfaceSize { width: 65537, height: 2 });
    assert_eq!((pixmap.width(), pixmap.height()), (1, 2));
    assert_eq!(pixmap.data().len(), 2);
}
