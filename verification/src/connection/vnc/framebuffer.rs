//! The local copy of the server's picture.
use crate::remote_display::display::{clipped, FrameUpdate, Update};
use crate::remote_display::pixels::{area_of, blit, blitted, crop, cropped, Area};
use vstd::prelude::*;

verus! {

/// A rectangle of the picture.
#[derive(Debug, Clone, Copy, PartialEq, Eq, Structural)]
pub struct CursorRect {
    pub x: u16,
    pub y: u16,
    pub width: u16,
    pub height: u16,
}

/// The picture: four bytes for each pixel, rows one after the other.
#[derive(Debug)]
pub struct VncFramebuffer {
    pub width: u16,
    pub height: u16,
    pub rgba: Vec<u8>,
}

/// The picture as a mathematical value.
#[verifier::ext_equal]
pub struct Picture {
    pub width: u16,
    pub height: u16,
    pub rgba: Seq<u8>,
}

impl View for VncFramebuffer {
    type V = Picture;

    open spec fn view(&self) -> Picture {
        Picture { width: self.width, height: self.height, rgba: self.rgba@ }
    }
}

/// The smaller of two sizes.
pub open spec fn smaller(a: u16, b: u16) -> u16 {
    if a < b {
        a
    } else {
        b
    }
}

impl Picture {
    /// Whether there are four bytes for each pixel.
    pub open spec fn wf(self) -> bool {
        self.rgba.len() == self.height * (4 * self.width)
    }

    /// A black, transparent picture.
    pub open spec fn blank(width: u16, height: u16) -> Picture {
        Picture {
            width,
            height,
            rgba: Seq::new((height * (4 * width)) as nat, |i: int| 0u8),
        }
    }

    /// A rectangle of this picture.
    pub open spec fn area(self, x: u16, y: u16, width: u16, height: u16) -> Area {
        area_of(self.width as u32, x as u32, y as u32, width as u32, height as u32)
    }

    /// The picture with a rectangle written over it, clipped to the picture. One that has nothing
    /// left, or too few pixels, is ignored.
    pub open spec fn written(self, r: CursorRect, rgba: Seq<u8>) -> Picture {
        let w = clipped(r.x, r.width, self.width);
        let h = clipped(r.y, r.height, self.height);
        if w == 0 || h == 0 || rgba.len() < h * (4 * w) {
            self
        } else {
            Picture { rgba: blitted(self.rgba, self.area(r.x, r.y, w, h), rgba), ..self }
        }
    }

    /// The whole picture as an update, where it has pixels.
    pub open spec fn full_update(self) -> Option<Update> {
        if self.width == 0 || self.height == 0 {
            None
        } else {
            Some(Update::Full { width: self.width, height: self.height, rgba: self.rgba })
        }
    }

    /// A rectangle of the picture as an update, where the picture holds its last row.
    pub open spec fn rect_update(self, r: CursorRect) -> Option<Update> {
        let area = self.area(r.x, r.y, r.width, r.height);
        if r.height > 0 && area.row_start(r.height - 1) + 4 * r.width > self.rgba.len() {
            None
        } else {
            Some(
                Update::Rect {
                    x: r.x,
                    y: r.y,
                    width: r.width,
                    height: r.height,
                    rgba: cropped(self.rgba, area),
                },
            )
        }
    }

    /// The size of a copy within the picture, clipped at both ends.
    pub open spec fn copy_size(
        self,
        dst_x: u16,
        dst_y: u16,
        src_x: u16,
        src_y: u16,
        width: u16,
        height: u16,
    ) -> (u16, u16) {
        (
            smaller(clipped(src_x, width, self.width), clipped(dst_x, width, self.width)),
            smaller(clipped(src_y, height, self.height), clipped(dst_y, height, self.height)),
        )
    }

    /// The picture after a rectangle was copied within it, as it was before the copy.
    pub open spec fn copied(
        self,
        dst_x: u16,
        dst_y: u16,
        src_x: u16,
        src_y: u16,
        width: u16,
        height: u16,
    ) -> Picture {
        let (w, h) = self.copy_size(dst_x, dst_y, src_x, src_y, width, height);
        if w == 0 || h == 0 {
            self
        } else {
            Picture {
                rgba: blitted(
                    self.rgba,
                    self.area(dst_x, dst_y, w, h),
                    cropped(self.rgba, self.area(src_x, src_y, w, h)),
                ),
                ..self
            }
        }
    }

    /// The update that such a copy gives, where it has pixels.
    pub open spec fn copy_update(
        self,
        dst_x: u16,
        dst_y: u16,
        src_x: u16,
        src_y: u16,
        width: u16,
        height: u16,
    ) -> Option<Update> {
        let (w, h) = self.copy_size(dst_x, dst_y, src_x, src_y, width, height);
        if w == 0 || h == 0 {
            None
        } else {
            Some(
                Update::Rect {
                    x: dst_x,
                    y: dst_y,
                    width: w,
                    height: h,
                    rgba: cropped(self.rgba, self.area(src_x, src_y, w, h)),
                },
            )
        }
    }
}

/// An optional update as a mathematical value.
pub open spec fn update_view(update: Option<FrameUpdate>) -> Option<Update> {
    match update {
        Some(u) => Some(u@),
        None => None,
    }
}

/// How much of a size fits from a place on.
pub fn clip(at: u16, size: u16, limit: u16) -> (r: u16)
    ensures
        r == clipped(at, size, limit),
{
    let room: u16 = limit.saturating_sub(at);
    if size < room {
        size
    } else {
        room
    }
}

/// The bytes of a picture of the given size.
pub fn picture_len(width: u16, height: u16) -> (n: u64)
    ensures
        n == height * (4 * width),
{
    assert(height * (4 * width) <= 65535 * (4 * 65535)) by (nonlinear_arith)
        requires
            width <= 65535,
            height <= 65535,
    ;
    height as u64 * (4 * width as u64)
}

impl Default for VncFramebuffer {
    fn default() -> (fb: Self)
        ensures
            fb@ == Picture::blank(0, 0),
            fb@.wf(),
    {
        let fb = VncFramebuffer { width: 0, height: 0, rgba: Vec::new() };
        assert(fb@ =~= Picture::blank(0, 0));
        fb
    }
}

proof fn lemma_rows_len(image: Seq<u8>, area: Area, rows: int)
    requires
        0 <= rows,
        0 <= area.width,
        0 <= area.x,
        0 <= area.y,
        0 <= area.stride,
        rows > 0 ==> area.row_start(rows - 1) + 4 * area.width <= image.len(),
    ensures
        crate::remote_display::pixels::rows_read(image, area, rows).len() == rows * (4
            * area.width),
    decreases rows,
{
    if rows > 0 {
        let y = area.y;
        let stride = area.stride;
        assert((y + rows - 2) * stride <= (y + rows - 1) * stride) by (nonlinear_arith)
            requires
                0 <= stride,
        ;
        assert(0 <= (y + rows - 1) * stride) by (nonlinear_arith)
            requires
                0 <= y + rows - 1,
                0 <= stride,
        ;
        lemma_rows_len(image, area, rows - 1);
        let w4 = 4 * area.width;
        assert(rows * w4 == (rows - 1) * w4 + w4) by (nonlinear_arith);
    }
}

/// The rows of a rectangle that lies on the picture are in its bytes.
proof fn lemma_area_fits(p: Picture, x: u16, y: u16, w: u16, h: u16)
    requires
        p.wf(),
        h > 0,
        x + w <= p.width,
        y + h <= p.height,
    ensures
        p.area(x, y, w, h).row_start(h - 1) + 4 * w <= p.rgba.len(),
        cropped(p.rgba, p.area(x, y, w, h)).len() == h * (4 * w),
{
    let stride = 4 * p.width;
    let last = y + h - 1;
    let height = p.height as int;
    assert((last + 1) * stride <= height * stride) by (nonlinear_arith)
        requires
            last + 1 <= height,
            0 <= stride,
    ;
    assert((last + 1) * stride == last * stride + stride) by (nonlinear_arith);
    lemma_rows_len(p.rgba, p.area(x, y, w, h), h as int);
}

impl VncFramebuffer {
    /// Starts over with a blank picture of another size.
    pub fn reset(&mut self, width: u16, height: u16)
        requires
            height * (4 * width) <= usize::MAX,
        ensures
            final(self)@ == Picture::blank(width, height),
            final(self)@.wf(),
    {
        self.width = width;
        self.height = height;
        let len: usize = picture_len(width, height) as usize;
        self.rgba = vec![0u8; len];
        assert(self@ =~= Picture::blank(width, height));
    }

    /// The whole picture as an update.
    pub fn as_full_update(&self) -> (update: Option<FrameUpdate>)
        ensures
            update_view(update) == self@.full_update(),
    {
        if self.width == 0 || self.height == 0 {
            return None;
        }
        let rgba = self.rgba.clone();
        assert(rgba@ =~= self.rgba@);
        Some(FrameUpdate::Full { width: self.width, height: self.height, rgba })
    }
}

/// Writes a rectangle over the picture.
pub fn write_raw_rect_to_framebuffer(
    framebuffer: &mut VncFramebuffer,
    x: u16,
    y: u16,
    width: u16,
    height: u16,
    rgba: &Vec<u8>,
)
    requires
        old(framebuffer)@.wf(),
    ensures
        final(framebuffer)@ == old(framebuffer)@.written(CursorRect { x, y, width, height }, rgba@),
        final(framebuffer)@.wf(),
{
    let rect_w: u16 = clip(x, width, framebuffer.width);
    let rect_h: u16 = clip(y, height, framebuffer.height);
    if rect_w == 0 || rect_h == 0 {
        return;
    }
    if (rgba.len() as u64) < picture_len(rect_w, rect_h) {
        return;
    }
    let image_width: u32 = framebuffer.width as u32;
    blit(
        &mut framebuffer.rgba,
        image_width,
        x as u32,
        y as u32,
        rect_w as u32,
        rect_h as u32,
        rgba,
    );
}

/// A rectangle of the picture as an update.
pub fn framebuffer_rect_update(framebuffer: &VncFramebuffer, rect: CursorRect) -> (update: Option<
    FrameUpdate,
>)
    ensures
        update_view(update) == framebuffer@.rect_update(rect),
{
    if rect.height > 0 {
        let last_row: u64 = rect.y as u64 + rect.height as u64 - 1;
        let stride: u64 = 4 * framebuffer.width as u64;
        assert(0 <= last_row * stride <= 131070 * 262140) by (nonlinear_arith)
            requires
                0 <= last_row <= 131070,
                0 <= stride <= 262140,
        ;
        let end: u64 = last_row * stride + 4 * rect.x as u64 + 4 * rect.width as u64;
        if end > framebuffer.rgba.len() as u64 {
            return None;
        }
    }
    let rgba = crop(
        framebuffer.rgba.as_slice(),
        framebuffer.width as u32,
        rect.x as u32,
        rect.y as u32,
        rect.width as u32,
        rect.height as u32,
    );
    Some(
        FrameUpdate::Rect {
            x: rect.x,
            y: rect.y,
            width: rect.width,
            height: rect.height,
            rgba,
        },
    )
}

/// Copies a rectangle within the picture. The source and the target may overlap.
pub fn copy_rect_in_framebuffer(
    framebuffer: &mut VncFramebuffer,
    dst_x: u16,
    dst_y: u16,
    src_x: u16,
    src_y: u16,
    width: u16,
    height: u16,
) -> (update: Option<FrameUpdate>)
    requires
        old(framebuffer)@.wf(),
    ensures
        final(framebuffer)@ == old(framebuffer)@.copied(
            dst_x,
            dst_y,
            src_x,
            src_y,
            width,
            height,
        ),
        final(framebuffer)@.wf(),
        update_view(update) == old(framebuffer)@.copy_update(
            dst_x,
            dst_y,
            src_x,
            src_y,
            width,
            height,
        ),
{
    let src_w: u16 = clip(src_x, width, framebuffer.width);
    let dst_w: u16 = clip(dst_x, width, framebuffer.width);
    let copy_w: u16 = if src_w < dst_w {
        src_w
    } else {
        dst_w
    };
    let src_h: u16 = clip(src_y, height, framebuffer.height);
    let dst_h: u16 = clip(dst_y, height, framebuffer.height);
    let copy_h: u16 = if src_h < dst_h {
        src_h
    } else {
        dst_h
    };
    if copy_w == 0 || copy_h == 0 {
        return None;
    }
    let temp = crop(
        framebuffer.rgba.as_slice(),
        framebuffer.width as u32,
        src_x as u32,
        src_y as u32,
        copy_w as u32,
        copy_h as u32,
    );
    proof {
        lemma_area_fits(framebuffer@, src_x, src_y, copy_w, copy_h);
    }
    let image_width: u32 = framebuffer.width as u32;
    blit(
        &mut framebuffer.rgba,
        image_width,
        dst_x as u32,
        dst_y as u32,
        copy_w as u32,
        copy_h as u32,
        &temp,
    );
    Some(FrameUpdate::Rect { x: dst_x, y: dst_y, width: copy_w, height: copy_h, rgba: temp })
}

} // verus!
