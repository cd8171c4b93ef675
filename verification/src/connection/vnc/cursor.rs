//! The mouse cursor, drawn over the picture locally.
use crate::connection::vnc::framebuffer::{
    picture_len, update_view, CursorRect, Picture, VncFramebuffer,
};
use crate::remote_display::display::{FrameUpdate, Update};
use vstd::arithmetic::div_mod::lemma_fundamental_div_mod_converse;
use vstd::prelude::*;

verus! {

/// The position of the mouse and its buttons, one bit each.
#[derive(Debug, Clone, Copy, PartialEq, Eq, Structural)]
pub struct PointerState {
    pub x: u16,
    pub y: u16,
    pub buttons: u8,
}

impl Default for PointerState {
    fn default() -> (p: Self)
        ensures
            p == (PointerState { x: 0, y: 0, buttons: 0 }),
    {
        PointerState { x: 0, y: 0, buttons: 0 }
    }
}

/// The shape of the cursor and where it was drawn last.
#[derive(Debug)]
pub struct VncCursorState {
    pub hot_x: u16,
    pub hot_y: u16,
    pub width: u16,
    pub height: u16,
    pub rgba: Vec<u8>,
    pub last_rect: Option<CursorRect>,
    /// Whether the picture has to be fetched whole once the cursor's shape is known.
    pub needs_cursor_sync_full_refresh: bool,
}

/// The cursor as a mathematical value.
#[verifier::ext_equal]
pub struct Shape {
    pub hot_x: u16,
    pub hot_y: u16,
    pub width: u16,
    pub height: u16,
    pub rgba: Seq<u8>,
    pub last_rect: Option<CursorRect>,
    pub needs_sync: bool,
}

impl View for VncCursorState {
    type V = Shape;

    open spec fn view(&self) -> Shape {
        Shape {
            hot_x: self.hot_x,
            hot_y: self.hot_y,
            width: self.width,
            height: self.height,
            rgba: self.rgba@,
            last_rect: self.last_rect,
            needs_sync: self.needs_cursor_sync_full_refresh,
        }
    }
}

impl Default for VncCursorState {
    fn default() -> (c: Self)
        ensures
            c@ == (Shape {
                hot_x: 0,
                hot_y: 0,
                width: 0,
                height: 0,
                rgba: Seq::empty(),
                last_rect: None,
                needs_sync: false,
            }),
    {
        VncCursorState {
            hot_x: 0,
            hot_y: 0,
            width: 0,
            height: 0,
            rgba: Vec::new(),
            last_rect: None,
            needs_cursor_sync_full_refresh: false,
        }
    }
}

/// `v`, moved into the range from zero to `limit`.
pub open spec fn clamped(v: int, limit: int) -> int {
    if v < 0 {
        0
    } else if v > limit {
        limit
    } else {
        v
    }
}

impl Shape {
    /// Whether the cursor has a shape with all its pixels.
    pub open spec fn has_shape(self) -> bool {
        self.width > 0 && self.height > 0 && self.rgba.len() >= self.height * (4 * self.width)
    }

    /// The column of the cursor's left edge, which may be off the picture.
    pub open spec fn left(self, pointer: PointerState) -> int {
        pointer.x - self.hot_x
    }

    /// The row of the cursor's top edge, which may be off the picture.
    pub open spec fn top(self, pointer: PointerState) -> int {
        pointer.y - self.hot_y
    }

    /// The part of the cursor that is on the picture.
    pub open spec fn rect_on(self, picture: Picture, pointer: PointerState) -> Option<CursorRect> {
        let x0 = clamped(self.left(pointer), picture.width as int);
        let y0 = clamped(self.top(pointer), picture.height as int);
        let x1 = clamped(self.left(pointer) + self.width, picture.width as int);
        let y1 = clamped(self.top(pointer) + self.height, picture.height as int);
        if !self.has_shape() || x1 <= x0 || y1 <= y0 {
            None
        } else {
            Some(
                CursorRect {
                    x: x0 as u16,
                    y: y0 as u16,
                    width: (x1 - x0) as u16,
                    height: (y1 - y0) as u16,
                },
            )
        }
    }

    /// The cursor, with a note of where it was drawn if it was.
    pub open spec fn drawn(self, picture: Picture, pointer: PointerState) -> Shape {
        match self.rect_on(picture, pointer) {
            Some(r) => Shape { last_rect: Some(r), ..self },
            None => self,
        }
    }
}

/// A colour channel of the cursor over one of the picture, by the cursor's opacity: the weighted
/// mean, rounded to the nearest integer.
pub open spec fn blended(cursor: u8, alpha: u8, under: u8) -> u8 {
    ((2 * (cursor * alpha + under * (255 - alpha)) + 255) / 510) as u8
}

/// Byte `k` of the cursor's picture on rectangle `r`.
pub open spec fn overlay_byte(
    picture: Picture,
    shape: Shape,
    pointer: PointerState,
    r: CursorRect,
    k: int,
) -> u8 {
    let row = (k / 4) / (r.width as int);
    let col = (k / 4) % (r.width as int);
    let channel = k % 4;
    let under = (r.y + row) * (4 * picture.width) + 4 * (r.x + col);
    let over = (r.y + row - shape.top(pointer)) * (4 * shape.width) + 4 * (r.x + col - shape.left(
        pointer,
    ));
    if channel == 3 {
        255
    } else {
        blended(shape.rgba[over + channel], shape.rgba[over + 3], picture.rgba[under + channel])
    }
}

/// The update that draws the cursor over the picture, where a part of it shows.
pub open spec fn overlay(picture: Picture, shape: Shape, pointer: PointerState) -> Option<Update> {
    match shape.rect_on(picture, pointer) {
        Some(r) => Some(
            Update::Rect {
                x: r.x,
                y: r.y,
                width: r.width,
                height: r.height,
                rgba: Seq::new(
                    (r.height * (4 * r.width)) as nat,
                    |k: int| overlay_byte(picture, shape, pointer, r, k),
                ),
            },
        ),
        None => None,
    }
}

impl VncCursorState {
    /// Whether the cursor has a shape with all its pixels.
    pub fn has_shape(&self) -> (b: bool)
        ensures
            b == self@.has_shape(),
    {
        self.width > 0 && self.height > 0 && self.rgba.len() as u64 >= picture_len(
            self.width,
            self.height,
        )
    }
}

/// `v`, moved into the range from zero to `limit`.
fn clamp(v: i32, limit: u16) -> (r: i32)
    ensures
        r == clamped(v as int, limit as int),
{
    if v < 0 {
        0
    } else if v > limit as i32 {
        limit as i32
    } else {
        v
    }
}

/// The part of the cursor that is on the picture.
pub fn compute_cursor_rect(
    framebuffer: &VncFramebuffer,
    cursor: &VncCursorState,
    pointer: &PointerState,
) -> (rect: Option<CursorRect>)
    ensures
        rect == cursor@.rect_on(framebuffer@, *pointer),
{
    if !cursor.has_shape() {
        return None;
    }
    let origin_x: i32 = pointer.x as i32 - cursor.hot_x as i32;
    let origin_y: i32 = pointer.y as i32 - cursor.hot_y as i32;
    let x0: i32 = clamp(origin_x, framebuffer.width);
    let y0: i32 = clamp(origin_y, framebuffer.height);
    let x1: i32 = clamp(origin_x + cursor.width as i32, framebuffer.width);
    let y1: i32 = clamp(origin_y + cursor.height as i32, framebuffer.height);
    if x1 <= x0 || y1 <= y0 {
        return None;
    }
    Some(
        CursorRect {
            x: x0 as u16,
            y: y0 as u16,
            width: (x1 - x0) as u16,
            height: (y1 - y0) as u16,
        },
    )
}

/// A colour channel of the cursor over one of the picture.
pub fn blend(cursor: u8, alpha: u8, under: u8) -> (r: u8)
    ensures
        r == blended(cursor, alpha, under),
{
    assert(cursor * alpha + under * (255 - alpha) <= 255 * 255) by (nonlinear_arith)
        requires
            cursor <= 255,
            under <= 255,
            alpha <= 255,
    ;
    assert(0 <= cursor * alpha <= 255 * 255 && 0 <= under * (255 - alpha) <= 255 * 255)
        by (nonlinear_arith)
        requires
            cursor <= 255,
            under <= 255,
            alpha <= 255,
    ;
    let mixed: u32 = cursor as u32 * alpha as u32 + under as u32 * (255 - alpha as u32);
    ((2 * mixed + 255) / 510) as u8
}

/// Pixel (`x`, `y`) of an image with `w` times `h` pixels is in its bytes.
proof fn lemma_pixel_fits(len: int, x: int, y: int, w: int, h: int)
    requires
        0 <= x < w,
        0 <= y < h,
        len >= h * (4 * w),
    ensures
        0 <= y * (4 * w) + 4 * x,
        y * (4 * w) + 4 * x + 3 < len,
{
    assert((y + 1) * (4 * w) <= h * (4 * w)) by (nonlinear_arith)
        requires
            y + 1 <= h,
            0 <= w,
    ;
    assert((y + 1) * (4 * w) == y * (4 * w) + 4 * w) by (nonlinear_arith);
    assert(0 <= y * (4 * w)) by (nonlinear_arith)
        requires
            0 <= y,
            0 <= w,
    ;
}

/// Draws the cursor over the picture, into an update of its own.
#[verifier::rlimit(40)]
pub fn draw_cursor_overlay_update(
    framebuffer: &VncFramebuffer,
    cursor: &mut VncCursorState,
    pointer: &PointerState,
) -> (update: Option<FrameUpdate>)
    requires
        framebuffer@.wf(),
    ensures
        final(cursor)@ == old(cursor)@.drawn(framebuffer@, *pointer),
        update_view(update) == overlay(framebuffer@, old(cursor)@, *pointer),
{
    let rect = match compute_cursor_rect(framebuffer, cursor, pointer) {
        Some(r) => r,
        None => return None,
    };
    let ghost picture = framebuffer@;
    let ghost shape = cursor@;
    let src_x0: u64 = (rect.x as i32 - (pointer.x as i32 - cursor.hot_x as i32)) as u64;
    let src_y0: u64 = (rect.y as i32 - (pointer.y as i32 - cursor.hot_y as i32)) as u64;
    assert(src_x0 == rect.x - shape.left(*pointer));
    assert(src_y0 == rect.y - shape.top(*pointer));
    let fb_stride: u64 = 4 * framebuffer.width as u64;
    let cursor_stride: u64 = 4 * cursor.width as u64;
    let w: u64 = rect.width as u64;
    let h: u64 = rect.height as u64;
    let mut out: Vec<u8> = Vec::new();
    let mut row: u64 = 0;
    while row < h
        invariant
            row <= h,
            w == rect.width,
            h == rect.height,
            w > 0,
            fb_stride == 4 * framebuffer.width,
            cursor_stride == 4 * cursor.width,
            picture == framebuffer@,
            shape == cursor@,
            picture.wf(),
            shape.has_shape(),
            rect.x + w <= picture.width,
            rect.y + h <= picture.height,
            src_x0 == rect.x - shape.left(*pointer),
            src_y0 == rect.y - shape.top(*pointer),
            src_x0 + w <= shape.width,
            src_y0 + h <= shape.height,
            out@.len() == 4 * (row * w),
            forall|k: int|
                0 <= k < out@.len() ==> #[trigger] out@[k] == overlay_byte(
                    picture,
                    shape,
                    *pointer,
                    rect,
                    k,
                ),
        decreases h - row,
    {
        let mut col: u64 = 0;
        while col < w
            invariant
                row < h,
                col <= w,
                w == rect.width,
                h == rect.height,
                w > 0,
                fb_stride == 4 * framebuffer.width,
                cursor_stride == 4 * cursor.width,
                picture == framebuffer@,
                shape == cursor@,
                picture.wf(),
                shape.has_shape(),
                rect.x + w <= picture.width,
                rect.y + h <= picture.height,
                src_x0 == rect.x - shape.left(*pointer),
                src_y0 == rect.y - shape.top(*pointer),
                src_x0 + w <= shape.width,
                src_y0 + h <= shape.height,
                out@.len() == 4 * (row * w + col),
                forall|k: int|
                    0 <= k < out@.len() ==> #[trigger] out@[k] == overlay_byte(
                        picture,
                        shape,
                        *pointer,
                        rect,
                        k,
                    ),
            decreases w - col,
        {
            let ghost pixel = row * w + col;
            proof {
                lemma_pixel_fits(
                    picture.rgba.len() as int,
                    rect.x + col,
                    rect.y + row,
                    picture.width as int,
                    picture.height as int,
                );
                lemma_pixel_fits(
                    shape.rgba.len() as int,
                    src_x0 + col,
                    src_y0 + row,
                    shape.width as int,
                    shape.height as int,
                );
                lemma_fundamental_div_mod_converse(pixel, w as int, row as int, col as int);
                assert(0 <= row * w) by (nonlinear_arith)
                    requires
                        0 <= row,
                        0 <= w,
                ;
            }
            assert(picture.rgba.len() == framebuffer.rgba.len());
            assert(shape.rgba.len() == cursor.rgba.len());
            let bg: usize = ((rect.y as u64 + row) * fb_stride + 4 * (rect.x as u64 + col))
                as usize;
            let cur: usize = ((src_y0 + row) * cursor_stride + 4 * (src_x0 + col)) as usize;
            let alpha: u8 = cursor.rgba[cur + 3];
            let ghost start = out@;
            out.push(blend(cursor.rgba[cur], alpha, framebuffer.rgba[bg]));
            out.push(blend(cursor.rgba[cur + 1], alpha, framebuffer.rgba[bg + 1]));
            out.push(blend(cursor.rgba[cur + 2], alpha, framebuffer.rgba[bg + 2]));
            out.push(255);
            proof {
                assert((4 * pixel) / 4 == pixel && (4 * pixel) % 4 == 0);
                assert((4 * pixel + 1) / 4 == pixel && (4 * pixel + 1) % 4 == 1);
                assert((4 * pixel + 2) / 4 == pixel && (4 * pixel + 2) % 4 == 2);
                assert((4 * pixel + 3) / 4 == pixel && (4 * pixel + 3) % 4 == 3);
                assert forall|k: int| 0 <= k < out@.len() implies #[trigger] out@[k]
                    == overlay_byte(picture, shape, *pointer, rect, k) by {
                    if k < start.len() {
                        assert(out@[k] == start[k]);
                    } else {
                        assert(k == 4 * pixel || k == 4 * pixel + 1 || k == 4 * pixel + 2 || k == 4
                            * pixel + 3);
                    }
                }
            }
            col = col + 1;
        }
        assert(row * w + w == (row + 1) * w) by (nonlinear_arith);
        row = row + 1;
    }
    assert(4 * (h * w) == h * (4 * w)) by (nonlinear_arith);
    let ghost pixels = Seq::new(
        (rect.height * (4 * rect.width)) as nat,
        |k: int| overlay_byte(picture, shape, *pointer, rect, k),
    );
    assert(out@ =~= pixels);
    cursor.last_rect = Some(rect);
    Some(
        FrameUpdate::Rect {
            x: rect.x,
            y: rect.y,
            width: rect.width,
            height: rect.height,
            rgba: out,
        },
    )
}

} // verus!
