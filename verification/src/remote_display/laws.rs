//! What holds of remote pictures as a whole.
use crate::remote_display::display::{
    clipped, full_count, next_seq, number_after, Display, Update,
};
use crate::remote_display::pixels::{area_of, blitted, cropped, lemma_byte_place, rows_read, Area};
use crate::remote_display::renderer::DirtyRect;
use vstd::prelude::*;

verus! {

/// Pictures that are made one after the other have different numbers: the picture that is made
/// after `i` others, and the one made after `j` others, as long as fewer pictures lie between them
/// than there are numbers.
pub proof fn new_pictures_have_new_numbers(
    next: u64,
    i: nat,
    j: nat,
    width: u16,
    height: u16,
    other_width: u16,
    other_height: u16,
)
    requires
        i < j,
        j - i <= u64::MAX,
    ensures
        Display::fresh(number_after(next, i), width, height).source_id != Display::fresh(
            number_after(next, j),
            other_width,
            other_height,
        ).source_id,
{
    lemma_number_after(next, i);
    lemma_number_after(next, j);
}

/// Numbers count up, around the end of the range.
proof fn lemma_number_after(next: u64, n: nat)
    ensures
        number_after(next, n) == (next + n) % 0x1_0000_0000_0000_0000,
    decreases n,
{
    if n > 0 {
        lemma_number_after(next, (n - 1) as nat);
    }
}

/// Reading a rectangle right after writing it gives what was written, where the image holds it.
pub proof fn written_rect_reads_back(image: Seq<u8>, area: Area, src: Seq<u8>)
    requires
        area.wf(),
        (area.y + area.height) * area.stride <= image.len(),
        area.height * (4 * area.width) <= src.len(),
    ensures
        cropped(blitted(image, area, src), area) == src.take(area.height * (4 * area.width)),
{
    lemma_rows_read_back(image, area, src, area.height);
}

proof fn lemma_row_fits(image: Seq<u8>, area: Area, row: int)
    requires
        area.wf(),
        (area.y + area.height) * area.stride <= image.len(),
        0 <= row < area.height,
    ensures
        0 <= area.row_start(row),
        area.row_start(row) + 4 * area.width <= image.len(),
{
    let y = area.y;
    let stride = area.stride;
    let height = area.height;
    assert((y + row + 1) * stride <= (y + height) * stride) by (nonlinear_arith)
        requires
            row + 1 <= height,
            0 <= stride,
    ;
    assert((y + row + 1) * stride == (y + row) * stride + stride) by (nonlinear_arith);
    assert(0 <= (y + row) * stride) by (nonlinear_arith)
        requires
            0 <= y + row,
            0 <= stride,
    ;
}

proof fn lemma_rows_read_back(image: Seq<u8>, area: Area, src: Seq<u8>, rows: int)
    requires
        area.wf(),
        (area.y + area.height) * area.stride <= image.len(),
        area.height * (4 * area.width) <= src.len(),
        0 <= rows <= area.height,
    ensures
        rows * (4 * area.width) <= src.len(),
        0 <= rows * (4 * area.width),
        rows_read(blitted(image, area, src), area, rows) == src.take(rows * (4 * area.width)),
    decreases rows,
{
    let w4 = 4 * area.width;
    let height = area.height;
    assert(rows * w4 <= height * w4) by (nonlinear_arith)
        requires
            rows <= height,
            0 <= w4,
    ;
    assert(0 <= rows * w4) by (nonlinear_arith)
        requires
            0 <= rows,
            0 <= w4,
    ;
    let after = blitted(image, area, src);
    if rows > 0 {
        lemma_rows_read_back(image, area, src, rows - 1);
        lemma_row_fits(image, area, rows - 1);
        assert(rows * w4 == (rows - 1) * w4 + w4) by (nonlinear_arith);
        let start = area.row_start(rows - 1);
        let row = after.subrange(start, start + w4);
        assert forall|k: int| 0 <= k < w4 implies #[trigger] row[k] == src[(rows - 1) * w4 + k] by {
            lemma_byte_place(area, rows - 1, k);
            assert(after[start + k] == src[area.place_of(start + k)]);
        }
        assert(src.take(rows * w4) =~= src.take((rows - 1) * w4) + row);
    } else {
        assert(src.take(0) =~= Seq::empty());
    }
}

/// A full update replaces the picture and asks for a full upload.
pub proof fn full_update_replaces_the_picture(d: Display, width: u16, height: u16, rgba: Seq<u8>)
    ensures
        ({
            let after = d.applied(Update::Full { width, height, rgba });
            &&& after.width == width
            &&& after.height == height
            &&& after.rgba == rgba
            &&& after.full_upload
            &&& after.frame_ready
            &&& after.frame_seq == next_seq(d.frame_seq)
        }),
{
}

/// A rectangle changes no pixel outside itself, and not the size of the picture.
pub proof fn rect_changes_only_its_pixels(
    d: Display,
    x: u16,
    y: u16,
    width: u16,
    height: u16,
    rgba: Seq<u8>,
    i: int,
)
    requires
        0 <= i < d.rgba.len(),
        !area_of(d.width as u32, x as u32, y as u32, width as u32, height as u32).holds(i),
    ensures
        ({
            let after = d.applied(Update::Rect { x, y, width, height, rgba });
            &&& after.width == d.width
            &&& after.height == d.height
            &&& after.rgba.len() == d.rgba.len()
            &&& after.rgba[i] == d.rgba[i]
        }),
{
}

/// A rectangle that lies on a picture with all its pixels can be read back from it.
pub proof fn rect_update_reads_back(
    d: Display,
    x: u16,
    y: u16,
    width: u16,
    height: u16,
    rgba: Seq<u8>,
)
    requires
        d.rgba.len() == 4 * d.width * d.height,
        width > 0,
        height > 0,
        x + width <= d.width,
        y + height <= d.height,
        rgba.len() == height * (4 * width),
    ensures
        cropped(
            d.applied(Update::Rect { x, y, width, height, rgba }).rgba,
            area_of(d.width as u32, x as u32, y as u32, width as u32, height as u32),
        ) == rgba,
{
    let area = area_of(d.width as u32, x as u32, y as u32, width as u32, height as u32);
    let dw = d.width as int;
    let dh = d.height as int;
    let bottom = y + height;
    assert(bottom * (4 * dw) <= dh * (4 * dw)) by (nonlinear_arith)
        requires
            bottom <= dh,
            0 <= dw,
    ;
    assert(dh * (4 * dw) == 4 * dw * dh) by (nonlinear_arith);
    written_rect_reads_back(d.rgba, area, rgba);
    assert(rgba.take(height * (4 * width)) =~= rgba);
}

/// Whether a changed rectangle of a picture holds byte `i` of it.
pub open spec fn marked(d: Display, i: int) -> bool {
    exists|k: int| 0 <= k < d.dirty.len() && rect_holds(d.width, #[trigger] d.dirty[k], i)
}

/// Whether a rectangle holds byte `i` of a picture.
pub open spec fn rect_holds(width: u16, r: DirtyRect, i: int) -> bool {
    area_of(width as u32, r.x, r.y, r.width, r.height).holds(i)
}

/// In a run of rectangles on a picture that is uploaded rectangle by rectangle, every pixel that
/// changed is in a rectangle that is marked for upload, unless the whole picture is.
pub proof fn changed_pixels_are_uploaded(d: Display, updates: Seq<Update>, n: int, i: int)
    requires
        !d.full_upload,
        0 <= n <= updates.len(),
        full_count(updates, n) == 0,
        0 <= i < d.rgba.len(),
        forall|k: int|
            0 <= k < n ==> !(#[trigger] d.applied_all(updates, k)).full_upload,
        !d.applied_all(updates, n).full_upload,
        d.applied_all(updates, n).rgba[i] != d.rgba[i],
    ensures
        marked(d.applied_all(updates, n), i),
    decreases n,
{
    lemma_rects_keep_size(d, updates, n);
    if n > 0 {
        lemma_rects_keep_size(d, updates, n - 1);
        let before = d.applied_all(updates, n - 1);
        let after = d.applied_all(updates, n);
        let update = updates[n - 1];
        assert(!before.full_upload);
        match update {
            Update::Full { .. } => {},
            Update::Rect { x, y, width, height, rgba } => {
                if after.dirty != before.dirty {
                    let w = clipped(x, width, before.width);
                    let h = clipped(y, height, before.height);
                    let r = DirtyRect {
                        x: x as u32,
                        y: y as u32,
                        width: w as u32,
                        height: h as u32,
                    };
                    assert(after.dirty == before.dirty.push(r));
                    if rect_holds(after.width, r, i) {
                        assert(after.dirty[before.dirty.len() as int] == r);
                    } else {
                        assert(after.rgba[i] == before.rgba[i]);
                        changed_pixels_are_uploaded(d, updates, n - 1, i);
                        let k = choose|k: int|
                            0 <= k < before.dirty.len() && rect_holds(
                                before.width,
                                #[trigger] before.dirty[k],
                                i,
                            );
                        assert(after.dirty[k] == before.dirty[k]);
                    }
                } else {
                    if after.rgba[i] != before.rgba[i] {
                        assert(after.dirty.len() == before.dirty.len() + 1);
                    }
                    changed_pixels_are_uploaded(d, updates, n - 1, i);
                }
            },
        }
    }
}

proof fn lemma_rects_keep_size(d: Display, updates: Seq<Update>, n: int)
    requires
        0 <= n <= updates.len(),
        full_count(updates, n) == 0,
    ensures
        d.applied_all(updates, n).rgba.len() == d.rgba.len(),
        d.applied_all(updates, n).width == d.width,
        d.applied_all(updates, n).height == d.height,
    decreases n,
{
    if n > 0 {
        lemma_rects_keep_size(d, updates, n - 1);
    }
}

/// A batch for which there is a reason to upload the whole picture leaves the whole picture to
/// upload, and no rectangle.
pub proof fn promoted_batch_uploads_everything(d: Display, updates: Seq<Update>)
    requires
        crate::remote_display::display::promotion(d.frame_seq, updates) is Some,
    ensures
        d.batched(updates).full_upload,
        d.batched(updates).dirty.len() == 0,
{
}

} // verus!
