use desktop_notes_display::display::{ExampleDisplay, GrayPixel, Size, FRAMEBUFFER_LEN};
use embedded_graphics::pixelcolor::{Gray8, GrayColor};
use embedded_graphics::prelude::{Pixel, Point, Primitive};
use embedded_graphics::primitives::{Circle, PrimitiveStyle};

fn px(x: i32, y: i32, luma: u8) -> GrayPixel {
    GrayPixel { x, y, luma }
}

#[test]
fn size_is_64_by_63() {
    let d = ExampleDisplay::new([0; 4032]);
    assert_eq!(d.size(), Size { width: 64, height: 63 });
    assert_eq!(FRAMEBUFFER_LEN, 4032);
}

#[test]
fn pixel_written_at_x_plus_64_y() {
    let mut d = ExampleDisplay::new([0; 4032]);
    assert!(d.draw_iter(&vec![px(5, 2, 200), px(0, 0, 7), px(63, 62, 9)]).is_ok());
    let fb = d.framebuffer();
    assert_eq!(fb[5 + 2 * 64], 200);
    assert_eq!(fb[0], 7);
    assert_eq!(fb[4031], 9);
    assert_eq!(fb.iter().filter(|b| **b != 0).count(), 3);
}

#[test]
fn off_screen_pixels_discarded() {
    let mut d = ExampleDisplay::new([1; 4032]);
    let off = vec![px(-1, 0, 9), px(0, -1, 9), px(64, 0, 9), px(0, 63, 9), px(i32::MIN, i32::MAX, 9)];
    assert!(d.draw_iter(&off).is_ok());
    assert!(d.framebuffer().iter().all(|b| *b == 1));
}

#[test]
fn every_pixel_has_its_own_byte() {
    let mut d = ExampleDisplay::new([0; 4032]);
    d.draw_iter(&vec![px(63, 0, 10), px(0, 1, 20), px(1, 1, 30)]).unwrap();
    let fb = d.framebuffer();
    assert_eq!(fb[63], 10);
    assert_eq!(fb[64], 20);
    assert_eq!(fb[65], 30);
    assert_eq!(fb.iter().filter(|b| **b != 0).count(), 3);
    let mut all = Vec::new();
    for y in 0..63 {
        for x in 0..64 {
            all.push(px(x, y, 1));
        }
    }
    let mut d = ExampleDisplay::new([0; 4032]);
    d.draw_iter(&all).unwrap();
    assert!(d.framebuffer().iter().all(|b| *b == 1));
}

#[test]
fn later_pixel_wins() {
    let mut d = ExampleDisplay::new([0; 4032]);
    d.draw_iter(&vec![px(3, 3, 1)]).unwrap();
    d.draw_iter(&vec![px(3, 3, 2), px(4, 3, 3)]).unwrap();
    assert_eq!(d.framebuffer()[3 + 3 * 64], 2);
    assert_eq!(d.framebuffer()[4 + 3 * 64], 3);
}

#[test]
fn drawing_in_two_calls_is_drawing_once() {
    let a = vec![px(1, 1, 10), px(70, 1, 11), px(2, 2, 12)];
    let b = vec![px(1, 1, 13), px(5, 60, 14)];
    let mut d1 = ExampleDisplay::new([0; 4032]);
    d1.draw_iter(&a).unwrap();
    d1.draw_iter(&b).unwrap();
    let mut d2 = ExampleDisplay::new([0; 4032]);
    let mut ab = a.clone();
    ab.extend(b);
    d2.draw_iter(&ab).unwrap();
    assert_eq!(d1.framebuffer()[..], d2.framebuffer()[..]);
}

#[test]
fn circle_outline_drawn_white() {
    let circle = Circle::new(Point::new(22, 22), 20)
        .into_styled(PrimitiveStyle::with_stroke(Gray8::WHITE, 1));
    let pixels: Vec<GrayPixel> = circle
        .pixels()
        .map(|Pixel(p, c)| GrayPixel { x: p.x, y: p.y, luma: c.luma() })
        .collect();
    assert!(!pixels.is_empty());
    let mut d = ExampleDisplay::new([0; 4032]);
    d.draw_iter(&pixels).unwrap();
    for p in &pixels {
        assert_eq!(d.framebuffer()[(p.x + 64 * p.y) as usize], 255);
    }
    // the centre of the ring stays dark
    assert_eq!(d.framebuffer()[(31 + 64 * 31) as usize], 0);
}
