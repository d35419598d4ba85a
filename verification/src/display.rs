//! The e-paper display's framebuffer: one gray level (`u8`) per pixel of a
//! 64 by 63 screen. Drawing writes pixels into the framebuffer; pixels off
//! the screen are discarded, never an error. Sending the framebuffer to the
//! display controller is left to the caller.
use vstd::prelude::*;

verus! {

/// Bytes in the framebuffer: one per pixel of the 64 by 63 screen.
pub const FRAMEBUFFER_LEN: usize = 4032;

/// One pixel to draw: its coordinates on the screen (which may lie off it)
/// and its gray level.
#[derive(PartialEq, Eq, Structural, Clone, Copy, Debug)]
pub struct GrayPixel {
    pub x: i32,
    pub y: i32,
    pub luma: u8,
}

/// The size of a screen in pixels.
#[derive(PartialEq, Eq, Structural, Clone, Copy, Debug)]
pub struct Size {
    pub width: u32,
    pub height: u32,
}

/// A display whose drawing goes into a framebuffer.
pub struct ExampleDisplay {
    /// The framebuffer with one `u8` value per pixel.
    framebuffer: [u8; 4032],
}

impl View for ExampleDisplay {
    type V = Seq<u8>;

    closed spec fn view(&self) -> Seq<u8> {
        self.framebuffer@
    }
}

/// Where a pixel at `(x, y)` goes in the framebuffer: row by row, 64 bytes
/// a row, so at `x + 64 * y` for `0 <= x <= 63` and `0 <= y <= 62`; nowhere
/// for any other pixel.
pub open spec fn pixel_index(x: i32, y: i32) -> Option<int> {
    if 0 <= x <= 63 && 0 <= y <= 62 {
        Some(x + y * 64)
    } else {
        None
    }
}

/// The framebuffer `fb` once pixel `p` is drawn.
pub open spec fn draw_pixel(fb: Seq<u8>, p: GrayPixel) -> Seq<u8> {
    match pixel_index(p.x, p.y) {
        Some(i) => fb.update(i, p.luma),
        None => fb,
    }
}

/// The framebuffer `fb` once the pixels `ps` are drawn, in order.
pub open spec fn draw_pixels(fb: Seq<u8>, ps: Seq<GrayPixel>) -> Seq<u8>
    decreases ps.len(),
{
    if ps.len() == 0 {
        fb
    } else {
        draw_pixel(draw_pixels(fb, ps.drop_last()), ps.last())
    }
}

impl ExampleDisplay {
    /// A display that starts from the framebuffer `framebuffer`.
    pub fn new(framebuffer: [u8; 4032]) -> (d: ExampleDisplay)
        ensures
            d@ == framebuffer@,
    {
        ExampleDisplay { framebuffer }
    }

    /// The framebuffer, as it goes to the display controller.
    pub fn framebuffer(&self) -> (fb: &[u8; 4032])
        ensures
            fb@ == self@,
    {
        &self.framebuffer
    }

    /// The size of the screen: 64 pixels wide, 63 high.
    pub fn size(&self) -> (s: Size)
        ensures
            s == (Size { width: 64, height: 63 }),
    {
        Size { width: 64, height: 63 }
    }

    /// Draws the pixels `pixels`, in order, into the framebuffer. A pixel
    /// off the screen (a coordinate negative, `x` above 63 or `y` above 62)
    /// is discarded. Drawing never fails.
    pub fn draw_iter(&mut self, pixels: &Vec<GrayPixel>) -> (r: Result<(), core::convert::Infallible>)
        ensures
            final(self)@ == draw_pixels(old(self)@, pixels@),
            r is Ok,
    {
        for k in 0..pixels.len()
            invariant
                self@ == draw_pixels(old(self)@, pixels@.take(k as int)),
        {
            assert(pixels@.take(k + 1).drop_last() == pixels@.take(k as int));
            let p = pixels[k];
            if 0 <= p.x && p.x <= 63 && 0 <= p.y && p.y <= 62 {
                // Calculate the index in the framebuffer.
                let index: u32 = (p.x as u32) + (p.y as u32) * 64;
                self.framebuffer[index as usize] = p.luma;
            }
        }
        assert(pixels@.take(pixels.len() as int) == pixels@);
        Ok(())
    }
}

/// One byte per pixel: every pixel on the screen has a byte of its own in
/// the framebuffer.
pub proof fn lemma_one_byte_per_pixel(x1: i32, y1: i32, x2: i32, y2: i32)
    requires
        pixel_index(x1, y1) is Some,
        pixel_index(x2, y2) is Some,
    ensures
        0 <= pixel_index(x1, y1)->0 < FRAMEBUFFER_LEN,
        pixel_index(x1, y1) == pixel_index(x2, y2) ==> x1 == x2 && y1 == y2,
{
}

/// Drawing keeps the framebuffer's length.
pub proof fn lemma_draw_keeps_len(fb: Seq<u8>, ps: Seq<GrayPixel>)
    requires
        fb.len() == FRAMEBUFFER_LEN,
    ensures
        draw_pixels(fb, ps).len() == FRAMEBUFFER_LEN,
    decreases ps.len(),
{
    if ps.len() > 0 {
        lemma_draw_keeps_len(fb, ps.drop_last());
    }
}

/// Drawing `a` and then `b` leaves the framebuffer as drawing `a + b` does.
pub proof fn lemma_draw_concat(fb: Seq<u8>, a: Seq<GrayPixel>, b: Seq<GrayPixel>)
    ensures
        draw_pixels(fb, a + b) == draw_pixels(draw_pixels(fb, a), b),
    decreases b.len(),
{
    if b.len() == 0 {
        assert(a + b == a);
    } else {
        assert((a + b).drop_last() == a + b.drop_last());
        assert((a + b).last() == b.last());
        lemma_draw_concat(fb, a, b.drop_last());
    }
}

/// Pixels off the screen leave the framebuffer as it was.
pub proof fn lemma_off_screen_discarded(fb: Seq<u8>, ps: Seq<GrayPixel>)
    requires
        forall|k: int| 0 <= k < ps.len() ==> pixel_index(#[trigger] ps[k].x, ps[k].y) is None,
    ensures
        draw_pixels(fb, ps) == fb,
    decreases ps.len(),
{
    if ps.len() > 0 {
        lemma_off_screen_discarded(fb, ps.drop_last());
        assert(pixel_index(ps[ps.len() - 1].x, ps[ps.len() - 1].y) is None);
    }
}

/// A pixel drawn on the screen can be read back at its index until a later
/// pixel goes to the same index.
pub proof fn lemma_read_back(fb: Seq<u8>, a: Seq<GrayPixel>, p: GrayPixel, b: Seq<GrayPixel>)
    requires
        fb.len() == FRAMEBUFFER_LEN,
        pixel_index(p.x, p.y) is Some,
        forall|k: int|
            0 <= k < b.len() ==> pixel_index(#[trigger] b[k].x, b[k].y) != pixel_index(p.x, p.y),
    ensures
        draw_pixels(fb, a.push(p) + b)[pixel_index(p.x, p.y)->0] == p.luma,
    decreases b.len(),
{
    let i = pixel_index(p.x, p.y)->0;
    if b.len() == 0 {
        assert(a.push(p) + b == a.push(p));
        assert(a.push(p).drop_last() == a);
        lemma_draw_keeps_len(fb, a);
    } else {
        assert((a.push(p) + b).drop_last() == a.push(p) + b.drop_last());
        assert((a.push(p) + b).last() == b.last());
        lemma_read_back(fb, a, p, b.drop_last());
        lemma_draw_keeps_len(fb, a.push(p) + b.drop_last());
        assert(0 <= i < FRAMEBUFFER_LEN);
        assert(pixel_index(b[b.len() - 1].x, b[b.len() - 1].y) != pixel_index(p.x, p.y));
    }
}

} // verus!
