//! What of a remote picture has to reach the texture that shows it.
use crate::remote_display::pixels::{area_of, crop, cropped};
use std::sync::Arc;
use vstd::prelude::*;

verus! {

/// A rectangle of the picture that changed.
#[derive(Debug, Clone, Copy, PartialEq, Eq, Structural)]
pub struct DirtyRect {
    pub x: u32,
    pub y: u32,
    pub width: u32,
    pub height: u32,
}

/// What is handed over for one drawn frame.
#[derive(Debug)]
pub struct RdpFrame {
    pub rgba: Arc<Vec<u8>>,
    pub tex_width: u32,
    pub tex_height: u32,
    pub dirty_rects: Vec<DirtyRect>,
    pub full_upload: bool,
}

/// The source of drawn frames: the picture and what changed in it.
pub struct RdpDisplayProgram {
    pub frame: Arc<Vec<u8>>,
    pub tex_width: u32,
    pub tex_height: u32,
    pub dirty_rects: Vec<DirtyRect>,
    pub full_upload: bool,
}

/// A write to the texture: where it goes, and its pixels.
#[derive(Debug)]
pub struct Upload {
    pub rect: DirtyRect,
    pub rgba: Vec<u8>,
}

/// An upload as a mathematical value.
#[verifier::ext_equal]
pub struct UploadView {
    pub rect: DirtyRect,
    pub rgba: Seq<u8>,
}

impl View for Upload {
    type V = UploadView;

    open spec fn view(&self) -> UploadView {
        UploadView { rect: self.rect, rgba: self.rgba@ }
    }
}

/// Uploads as mathematical values.
pub open spec fn uploads_view(uploads: Seq<Upload>) -> Seq<UploadView> {
    Seq::new(uploads.len(), |i: int| uploads[i]@)
}

/// The pixels of a rectangle of a picture.
pub open spec fn rect_pixels(rgba: Seq<u8>, tex_width: u32, r: DirtyRect) -> Seq<u8> {
    cropped(rgba, area_of(tex_width, r.x, r.y, r.width, r.height))
}

/// The uploads of the rectangles before `n`: one for each that has pixels.
pub open spec fn rect_uploads(
    rgba: Seq<u8>,
    tex_width: u32,
    rects: Seq<DirtyRect>,
    n: int,
) -> Seq<UploadView>
    decreases n,
{
    if n <= 0 {
        Seq::empty()
    } else {
        let r = rects[n - 1];
        let before = rect_uploads(rgba, tex_width, rects, n - 1);
        let bytes = rect_pixels(rgba, tex_width, r);
        if bytes.len() > 0 {
            before.push(UploadView { rect: r, rgba: bytes })
        } else {
            before
        }
    }
}

/// Clones rectangles.
fn clone_rects(rects: &Vec<DirtyRect>) -> (copy: Vec<DirtyRect>)
    ensures
        copy@ == rects@,
{
    let copy = rects.clone();
    assert(copy@ =~= rects@);
    copy
}

impl RdpDisplayProgram {
    /// The frame to draw: the program's picture and changes as they are.
    pub fn draw(&self) -> (frame: RdpFrame)
        ensures
            frame.rgba@ == self.frame@,
            frame.tex_width == self.tex_width,
            frame.tex_height == self.tex_height,
            frame.dirty_rects@ == self.dirty_rects@,
            frame.full_upload == self.full_upload,
    {
        RdpFrame {
            rgba: self.frame.clone(),
            tex_width: self.tex_width,
            tex_height: self.tex_height,
            dirty_rects: clone_rects(&self.dirty_rects),
            full_upload: self.full_upload,
        }
    }
}

impl RdpFrame {
    /// Whether a texture of the given size has to be made anew for this frame.
    pub fn needs_texture(&self, width: u32, height: u32) -> (b: bool)
        ensures
            b == (self.tex_width != width || self.tex_height != height),
    {
        self.tex_width != width || self.tex_height != height
    }

    /// What is written to the texture: none means the whole picture, else one upload for each
    /// changed rectangle that has pixels.
    pub fn uploads(&self) -> (uploads: Option<Vec<Upload>>)
        ensures
            self.full_upload <==> uploads is None,
            uploads matches Some(u) ==> uploads_view(u@) == rect_uploads(
                self.rgba@,
                self.tex_width,
                self.dirty_rects@,
                self.dirty_rects@.len() as int,
            ),
    {
        if self.full_upload {
            return None;
        }
        let mut uploads: Vec<Upload> = Vec::new();
        let mut i: usize = 0;
        assert(uploads_view(uploads@) =~= Seq::empty());
        while i < self.dirty_rects.len()
            invariant
                i <= self.dirty_rects@.len(),
                uploads_view(uploads@) == rect_uploads(
                    self.rgba@,
                    self.tex_width,
                    self.dirty_rects@,
                    i as int,
                ),
            decreases self.dirty_rects@.len() - i,
        {
            let rect = self.dirty_rects[i];
            let rgba = crop(self.rgba.as_slice(), self.tex_width, rect.x, rect.y, rect.width, rect.height);
            let ghost before = uploads_view(uploads@);
            if rgba.len() > 0 {
                let upload = Upload { rect, rgba };
                let ghost added = upload@;
                uploads.push(upload);
                assert(uploads_view(uploads@) =~= before.push(added));
            }
            i = i + 1;
        }
        Some(uploads)
    }
}

} // verus!
