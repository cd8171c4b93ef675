//! Pixel formats: what the server sends, as top-down rows of four bytes per pixel.
use vstd::arithmetic::div_mod::lemma_fundamental_div_mod_converse;
use vstd::prelude::*;

verus! {

/// How a pixel is laid out in the source.
#[derive(Debug, Clone, Copy, PartialEq, Eq, Structural)]
pub enum PixelLayout {
    /// Red, green, blue.
    Rgb24,
    /// Blue, green, red.
    Bgr24,
    /// Five bits of red, six of green and five of blue, low byte first.
    Rgb16,
    /// Blue, green, red and a byte that says nothing.
    Bgrx,
}

/// The bytes of a pixel.
pub open spec fn pixel_size(layout: PixelLayout) -> int {
    match layout {
        PixelLayout::Rgb24 => 3,
        PixelLayout::Bgr24 => 3,
        PixelLayout::Rgb16 => 2,
        PixelLayout::Bgrx => 4,
    }
}

/// A five-bit channel, stretched to eight bits by repeating its high bits.
pub open spec fn widen5(v: int) -> int {
    8 * v + v / 4
}

/// A six-bit channel, stretched to eight bits by repeating its high bits.
pub open spec fn widen6(v: int) -> int {
    4 * v + v / 16
}

/// Channel `c` (red, green, blue, opacity) of the pixel that starts at byte `at`.
pub open spec fn channel(layout: PixelLayout, src: Seq<u8>, at: int, c: int) -> u8 {
    if c == 3 {
        255
    } else {
        match layout {
            PixelLayout::Rgb24 => src[at + c],
            PixelLayout::Bgr24 => src[at + 2 - c],
            PixelLayout::Bgrx => src[at + 2 - c],
            PixelLayout::Rgb16 => {
                let v = src[at] + 256 * src[at + 1];
                if c == 0 {
                    widen5(v / 2048) as u8
                } else if c == 1 {
                    widen6((v / 32) % 64) as u8
                } else {
                    widen5(v % 32) as u8
                }
            },
        }
    }
}

/// The source byte of column `x` in row `y` from the top, where the source holds its rows from
/// the bottom up.
pub open spec fn source_at(layout: PixelLayout, src_w: int, src_h: int, x: int, y: int) -> int {
    (src_h - 1 - y) * (pixel_size(layout) * src_w) + pixel_size(layout) * x
}

/// Byte `k` of a picture of width `rect_w` made from a bottom-up source. What the source does not
/// hold is zero.
pub open spec fn flipped_byte(
    layout: PixelLayout,
    src: Seq<u8>,
    src_w: int,
    src_h: int,
    rect_w: int,
    k: int,
) -> u8 {
    let y = (k / 4) / rect_w;
    let x = (k / 4) % rect_w;
    let at = source_at(layout, src_w, src_h, x, y);
    if x < src_w && y < src_h && at + pixel_size(layout) <= src.len() {
        channel(layout, src, at, k % 4)
    } else {
        0
    }
}

/// A top-down picture of the given size, made from a bottom-up source.
pub open spec fn flipped(
    layout: PixelLayout,
    src: Seq<u8>,
    src_w: int,
    src_h: int,
    rect_w: int,
    rect_h: int,
) -> Seq<u8> {
    Seq::new(
        (4 * (rect_h * rect_w)) as nat,
        |k: int| flipped_byte(layout, src, src_w, src_h, rect_w, k),
    )
}

/// The four channels of the pixel that starts at byte `at`.
fn read_pixel(layout: PixelLayout, src: &[u8], at: usize) -> (p: (u8, u8, u8))
    requires
        at + pixel_size(layout) <= src.len(),
    ensures
        p.0 == channel(layout, src@, at as int, 0),
        p.1 == channel(layout, src@, at as int, 1),
        p.2 == channel(layout, src@, at as int, 2),
{
    match layout {
        PixelLayout::Rgb24 => (src[at], src[at + 1], src[at + 2]),
        PixelLayout::Bgr24 => (src[at + 2], src[at + 1], src[at]),
        PixelLayout::Bgrx => (src[at + 2], src[at + 1], src[at]),
        PixelLayout::Rgb16 => {
            let v: u16 = src[at] as u16 + 256 * src[at + 1] as u16;
            let r: u16 = v / 2048;
            let g: u16 = (v / 32) % 64;
            let b: u16 = v % 32;
            ((8 * r + r / 4) as u8, (4 * g + g / 16) as u8, (8 * b + b / 4) as u8)
        },
    }
}

/// Makes a top-down picture from a bottom-up source.
pub fn to_rgba_flip(
    layout: PixelLayout,
    src: &[u8],
    src_w: u16,
    src_h: u16,
    rect_w: u16,
    rect_h: u16,
) -> (rgba: Vec<u8>)
    ensures
        rgba@ == flipped(
            layout,
            src@,
            src_w as int,
            src_h as int,
            rect_w as int,
            rect_h as int,
        ),
{
    let size: u64 = match layout {
        PixelLayout::Rgb24 => 3,
        PixelLayout::Bgr24 => 3,
        PixelLayout::Rgb16 => 2,
        PixelLayout::Bgrx => 4,
    };
    let stride: u64 = size * src_w as u64;
    let w: u64 = rect_w as u64;
    let h: u64 = rect_h as u64;
    let len: u64 = src.len() as u64;
    let mut rgba: Vec<u8> = Vec::new();
    let mut y: u64 = 0;
    while y < h
        invariant
            y <= h,
            w == rect_w,
            h == rect_h,
            size == pixel_size(layout),
            stride == size * src_w,
            stride <= 262140,
            len == src.len(),
            len == src@.len(),
            rgba@.len() == 4 * (y * w),
            forall|k: int|
                0 <= k < rgba@.len() ==> #[trigger] rgba@[k] == flipped_byte(
                    layout,
                    src@,
                    src_w as int,
                    src_h as int,
                    w as int,
                    k,
                ),
        decreases h - y,
    {
        let mut x: u64 = 0;
        while x < w
            invariant
                y < h,
                x <= w,
                w == rect_w,
                h == rect_h,
                size == pixel_size(layout),
                stride == size * src_w,
                stride <= 262140,
                len == src.len(),
            len == src@.len(),
                rgba@.len() == 4 * (y * w + x),
                forall|k: int|
                    0 <= k < rgba@.len() ==> #[trigger] rgba@[k] == flipped_byte(
                        layout,
                        src@,
                        src_w as int,
                        src_h as int,
                        w as int,
                        k,
                    ),
            decreases w - x,
        {
            let ghost pixel = y * w + x;
            let ghost start = rgba@;
            proof {
                lemma_fundamental_div_mod_converse(pixel, w as int, y as int, x as int);
                assert(0 <= y * w) by (nonlinear_arith)
                    requires
                        0 <= y,
                        0 <= w,
                ;
                assert((4 * pixel) / 4 == pixel && (4 * pixel) % 4 == 0);
                assert((4 * pixel + 1) / 4 == pixel && (4 * pixel + 1) % 4 == 1);
                assert((4 * pixel + 2) / 4 == pixel && (4 * pixel + 2) % 4 == 2);
                assert((4 * pixel + 3) / 4 == pixel && (4 * pixel + 3) % 4 == 3);
            }
            let mut quad: (u8, u8, u8, u8) = (0, 0, 0, 0);
            if x < src_w as u64 && y < src_h as u64 {
                let row: u64 = src_h as u64 - 1 - y;
                assert(0 <= row * stride <= 65535 * 262140) by (nonlinear_arith)
                    requires
                        0 <= row <= 65535,
                        0 <= stride <= 262140,
                ;
                let at: u64 = row * stride + size * x;
                assert(at == source_at(layout, src_w as int, src_h as int, x as int, y as int));
                if at + size <= len {
                    let (r, g, b) = read_pixel(layout, src, at as usize);
                    quad = (r, g, b, 255);
                }
            }
            rgba.push(quad.0);
            rgba.push(quad.1);
            rgba.push(quad.2);
            rgba.push(quad.3);
            proof {
                assert forall|k: int| 0 <= k < rgba@.len() implies #[trigger] rgba@[k]
                    == flipped_byte(layout, src@, src_w as int, src_h as int, w as int, k) by {
                    if k < start.len() {
                        assert(rgba@[k] == start[k]);
                    } else {
                        assert(k == 4 * pixel || k == 4 * pixel + 1 || k == 4 * pixel + 2 || k == 4
                            * pixel + 3);
                    }
                }
            }
            x = x + 1;
        }
        assert(y * w + w == (y + 1) * w) by (nonlinear_arith);
        y = y + 1;
    }
    assert(rgba@ =~= flipped(
        layout,
        src@,
        src_w as int,
        src_h as int,
        rect_w as int,
        rect_h as int,
    ));
    rgba
}

/// A bottom-up picture with red first.
pub fn rgb24_to_rgba_flip(rgb24: &[u8], src_w: u16, src_h: u16, rect_w: u16, rect_h: u16) -> (rgba:
    Vec<u8>)
    ensures
        rgba@ == flipped(
            PixelLayout::Rgb24,
            rgb24@,
            src_w as int,
            src_h as int,
            rect_w as int,
            rect_h as int,
        ),
{
    to_rgba_flip(PixelLayout::Rgb24, rgb24, src_w, src_h, rect_w, rect_h)
}

/// A bottom-up picture with blue first.
pub fn bgr24_to_rgba_flip(bgr24: &[u8], src_w: u16, src_h: u16, rect_w: u16, rect_h: u16) -> (rgba:
    Vec<u8>)
    ensures
        rgba@ == flipped(
            PixelLayout::Bgr24,
            bgr24@,
            src_w as int,
            src_h as int,
            rect_w as int,
            rect_h as int,
        ),
{
    to_rgba_flip(PixelLayout::Bgr24, bgr24, src_w, src_h, rect_w, rect_h)
}

/// A bottom-up picture with sixteen bits per pixel.
pub fn rgb16_to_rgba_flip(rgb16: &[u8], src_w: u16, src_h: u16, rect_w: u16, rect_h: u16) -> (rgba:
    Vec<u8>)
    ensures
        rgba@ == flipped(
            PixelLayout::Rgb16,
            rgb16@,
            src_w as int,
            src_h as int,
            rect_w as int,
            rect_h as int,
        ),
{
    to_rgba_flip(PixelLayout::Rgb16, rgb16, src_w, src_h, rect_w, rect_h)
}

/// A bottom-up picture with blue first and four bytes per pixel.
pub fn bgrx_to_rgba_flip(bgrx: &[u8], src_w: u16, src_h: u16, rect_w: u16, rect_h: u16) -> (rgba:
    Vec<u8>)
    ensures
        rgba@ == flipped(
            PixelLayout::Bgrx,
            bgrx@,
            src_w as int,
            src_h as int,
            rect_w as int,
            rect_h as int,
        ),
{
    to_rgba_flip(PixelLayout::Bgrx, bgrx, src_w, src_h, rect_w, rect_h)
}

/// Byte `k` of pixels with blue first, as red first. Without opacity in the source, they are
/// opaque.
pub open spec fn surface_byte(src: Seq<u8>, has_alpha: bool, k: int) -> u8 {
    let at = k - k % 4;
    if k % 4 == 0 {
        src[at + 2]
    } else if k % 4 == 1 {
        src[at + 1]
    } else if k % 4 == 2 {
        src[at]
    } else if has_alpha {
        src[at + 3]
    } else {
        255
    }
}

/// How many pixels of a picture of the given size the source holds.
pub open spec fn pixels_held(src: Seq<u8>, width: int, height: int) -> int {
    if src.len() / 4 < width * height {
        (src.len() / 4) as int
    } else {
        width * height
    }
}

/// The pixels of a surface, as far as the source holds them.
pub open spec fn surface_pixels(src: Seq<u8>, has_alpha: bool, width: int, height: int) -> Seq<u8> {
    Seq::new(
        (4 * pixels_held(src, width, height)) as nat,
        |k: int| surface_byte(src, has_alpha, k),
    )
}

/// Turns surface pixels with blue first into pixels with red first.
pub fn gfx_pixels_to_rgba(src: &Vec<u8>, has_alpha: bool, width: u16, height: u16) -> (dst: Vec<u8>)
    ensures
        dst@ == surface_pixels(src@, has_alpha, width as int, height as int),
{
    assert(0 <= width * height <= 65535 * 65535) by (nonlinear_arith)
        requires
            0 <= width <= 65535,
            0 <= height <= 65535,
    ;
    let wanted: u64 = width as u64 * height as u64;
    let held: u64 = (src.len() / 4) as u64;
    let count: u64 = if held < wanted {
        held
    } else {
        wanted
    };
    let mut dst: Vec<u8> = Vec::new();
    let mut i: u64 = 0;
    while i < count
        invariant
            i <= count,
            count <= src.len() / 4,
            dst@.len() == 4 * i,
            forall|k: int|
                0 <= k < dst@.len() ==> #[trigger] dst@[k] == surface_byte(src@, has_alpha, k),
        decreases count - i,
    {
        let at: usize = 4 * i as usize;
        let ghost start = dst@;
        let alpha: u8 = if has_alpha {
            src[at + 3]
        } else {
            255
        };
        dst.push(src[at + 2]);
        dst.push(src[at + 1]);
        dst.push(src[at]);
        dst.push(alpha);
        assert forall|k: int| 0 <= k < dst@.len() implies #[trigger] dst@[k] == surface_byte(
            src@,
            has_alpha,
            k,
        ) by {
            if k < start.len() {
                assert(dst@[k] == start[k]);
            } else {
                assert(k == at || k == at + 1 || k == at + 2 || k == at + 3);
            }
        }
        i = i + 1;
    }
    assert(dst@ =~= surface_pixels(src@, has_alpha, width as int, height as int));
    dst
}

/// The full range of a narrow channel becomes the full range of a byte.
pub proof fn widening_keeps_the_ends(v: int)
    requires
        0 <= v < 64,
    ensures
        widen5(0) == 0,
        widen5(31) == 255,
        widen6(0) == 0,
        widen6(63) == 255,
        v < 32 ==> 0 <= widen5(v) <= 255,
        0 <= widen6(v) <= 255,
{
}

} // verus!
