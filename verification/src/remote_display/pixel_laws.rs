//! Where the pixels of remote pictures go and come from, one by one.
use crate::remote_display::display::{Display, Update};
use crate::remote_display::pixels::{
    area_of, blitted, cropped, lemma_byte_place, lemma_place_byte, rows_read, Area,
};
use crate::remote_display::renderer::{rect_uploads, DirtyRect};
use vstd::prelude::*;

verus! {

/// Where channel `c` of the pixel in column `x` of row `y` stands in a picture that is `width` pixels
/// wide, with its rows one after the other.
pub open spec fn pixel_at(width: int, x: int, y: int, c: int) -> int {
    4 * (y * width + x) + c
}

/// Whether a picture that is `width` pixels wide holds `height` rows.
pub open spec fn holds_picture(image: Seq<u8>, width: int, height: int) -> bool {
    image.len() >= 4 * (height * width)
}

/// A pixel of a picture that holds it is among the picture's bytes.
pub proof fn lemma_pixel_in(width: int, height: int, x: int, y: int, c: int)
    requires
        0 <= x < width,
        0 <= y < height,
        0 <= c < 4,
    ensures
        0 <= pixel_at(width, x, y, c) < 4 * (height * width),
        pixel_at(width, x, y, c) == y * (4 * width) + (4 * x + c),
{
    assert(0 <= y * width) by (nonlinear_arith)
        requires
            0 <= y,
            0 <= width,
    ;
    assert(y * width + width <= height * width) by (nonlinear_arith)
        requires
            y + 1 <= height,
            0 <= width,
    ;
    assert(4 * (y * width) == y * (4 * width)) by (nonlinear_arith);
}

proof fn lemma_row_inside(area: Area, width: int, height: int, row: int, len: int)
    requires
        area.wf(),
        area.stride == 4 * width,
        area.y + area.height <= height,
        0 <= row < area.height,
        4 * (height * width) <= len,
    ensures
        0 <= area.row_start(row),
        area.row_start(row) + 4 * area.width <= len,
{
    let y = area.y + row;
    assert(0 <= y * (4 * width)) by (nonlinear_arith)
        requires
            0 <= y,
            0 <= width,
    ;
    assert(y * (4 * width) + 4 * width <= 4 * (height * width)) by (nonlinear_arith)
        requires
            y + 1 <= height,
            0 <= width,
    ;
}

/// Writing a rectangle puts each of its pixels at its place, and leaves every pixel outside it as it
/// was.
#[verifier::rlimit(40)]
pub proof fn writing_a_rectangle(
    image: Seq<u8>,
    width: u32,
    height: int,
    rect: DirtyRect,
    src: Seq<u8>,
    x: int,
    y: int,
    c: int,
)
    requires
        holds_picture(image, width as int, height),
        rect.x + rect.width <= width,
        rect.y + rect.height <= height,
        0 <= x < width,
        0 <= y < height,
        0 <= c < 4,
    ensures
        ({
            let after = blitted(
                image,
                area_of(width, rect.x, rect.y, rect.width, rect.height),
                src,
            );
            let at = pixel_at(width as int, x, y, c);
            let inside = rect.x <= x < rect.x + rect.width && rect.y <= y < rect.y + rect.height;
            &&& after.len() == image.len()
            &&& inside ==> after[at] == src[pixel_at(
                rect.width as int,
                x - rect.x,
                y - rect.y,
                c,
            )]
            &&& !inside ==> after[at] == image[at]
        }),
{
    let area = area_of(width, rect.x, rect.y, rect.width, rect.height);
    let at = pixel_at(width as int, x, y, c);
    lemma_pixel_in(width as int, height, x, y, c);
    let inside = rect.x <= x < rect.x + rect.width && rect.y <= y < rect.y + rect.height;
    if inside {
        let row = y - rect.y;
        let k = 4 * (x - rect.x) + c;
        lemma_row_inside(area, width as int, height, row, image.len() as int);
        lemma_byte_place(area, row, k);
        assert(area.row_start(row) + k == at);
        let w = rect.width as int;
        assert(row * (4 * w) == 4 * (row * w)) by (nonlinear_arith);
    } else if area.holds(at) {
        lemma_place_byte(area, at);
        vstd::arithmetic::div_mod::lemma_fundamental_div_mod_converse(
            at,
            4 * width,
            y,
            4 * x + c,
        );
    }
}

proof fn lemma_rows(image: Seq<u8>, area: Area, width: int, height: int, rows: int, row: int, k: int)
    requires
        area.wf(),
        area.stride == 4 * width,
        area.y + area.height <= height,
        4 * (height * width) <= image.len(),
        0 <= rows <= area.height,
        0 <= row < rows ==> 0 <= k < 4 * area.width,
    ensures
        rows_read(image, area, rows).len() == rows * (4 * area.width),
        0 <= row < rows ==> rows_read(image, area, rows)[row * (4 * area.width) + k]
            == image[area.row_start(row) + k],
    decreases rows,
{
    let w = 4 * area.width;
    if rows > 0 {
        lemma_rows(image, area, width, height, rows - 1, row, k);
        lemma_row_inside(area, width, height, rows - 1, image.len() as int);
        assert((rows - 1) * w + w == rows * w) by (nonlinear_arith);
        if 0 <= row < rows - 1 {
            assert(row * w + w <= (rows - 1) * w) by (nonlinear_arith)
                requires
                    row + 1 <= rows - 1,
                    0 <= w,
            ;
            assert(0 <= row * w) by (nonlinear_arith)
                requires
                    0 <= row,
                    0 <= w,
            ;
        }
    } else {
        assert(0 * w == 0) by (nonlinear_arith);
    }
}

/// Reading a rectangle gives its pixels, rows one after the other.
pub proof fn reading_a_rectangle(
    image: Seq<u8>,
    width: u32,
    height: int,
    rect: DirtyRect,
    x: int,
    y: int,
    c: int,
)
    requires
        holds_picture(image, width as int, height),
        0 < width,
        rect.x + rect.width <= width,
        rect.y + rect.height <= height,
    ensures
        ({
            let read = cropped(image, area_of(width, rect.x, rect.y, rect.width, rect.height));
            &&& read.len() == 4 * (rect.height * rect.width)
            &&& 0 <= x < rect.width && 0 <= y < rect.height && 0 <= c < 4 ==> read[pixel_at(
                rect.width as int,
                x,
                y,
                c,
            )] == image[pixel_at(width as int, rect.x + x, rect.y + y, c)]
        }),
{
    let area = area_of(width, rect.x, rect.y, rect.width, rect.height);
    let w = rect.width as int;
    let h = rect.height as int;
    assert(h * (4 * w) == 4 * (h * w)) by (nonlinear_arith);
    if 0 <= x < rect.width && 0 <= y < rect.height && 0 <= c < 4 {
        lemma_rows(image, area, width as int, height, h, y, 4 * x + c);
        lemma_pixel_in(w, h, x, y, c);
        lemma_pixel_in(width as int, height, rect.x + x, rect.y + y, c);
    } else {
        lemma_rows(image, area, width as int, height, h, h, 0);
    }
}

/// A rectangle that lies on the picture shows its pixels there, and changes no other. It is marked
/// for upload where it was not all of the picture that was, and the frame counts as a new one.
#[verifier::rlimit(40)]
pub proof fn rectangles_show_at_their_place(
    d: Display,
    x: u16,
    y: u16,
    width: u16,
    height: u16,
    rgba: Seq<u8>,
    px: int,
    py: int,
    c: int,
)
    requires
        d.rgba.len() == 4 * (d.height * d.width),
        width > 0,
        height > 0,
        x + width <= d.width,
        y + height <= d.height,
        rgba.len() == 4 * (height * width),
        0 <= px < d.width,
        0 <= py < d.height,
        0 <= c < 4,
    ensures
        ({
            let after = d.applied(Update::Rect { x, y, width, height, rgba });
            let at = pixel_at(d.width as int, px, py, c);
            let inside = x <= px < x + width && y <= py < y + height;
            let rect = DirtyRect {
                x: x as u32,
                y: y as u32,
                width: width as u32,
                height: height as u32,
            };
            &&& inside ==> after.rgba[at] == rgba[pixel_at(width as int, px - x, py - y, c)]
            &&& !inside ==> after.rgba[at] == d.rgba[at]
            &&& after.width == d.width && after.height == d.height
            &&& after.frame_ready
            &&& d.frame_seq < u64::MAX ==> after.frame_seq == d.frame_seq + 1
            &&& d.full_upload ==> after.dirty == seq![rect] && !after.full_upload
            &&& !d.full_upload && d.dirty.len() < 256 ==> after.dirty == d.dirty.push(rect)
                && !after.full_upload
            &&& !d.full_upload && d.dirty.len() >= 256 ==> after.dirty.len() == 0
                && after.full_upload
            &&& after.source_id == d.source_id && after.status == d.status
        }),
{
    let rect = DirtyRect { x: x as u32, y: y as u32, width: width as u32, height: height as u32 };
    let (w, h) = (width as int, height as int);
    assert(h * (4 * w) == 4 * (h * w)) by (nonlinear_arith);
    writing_a_rectangle(d.rgba, d.width as u32, d.height as int, rect, rgba, px, py, c);
}

/// A rectangle that starts beyond the picture, or brings too few pixels, changes nothing.
pub proof fn other_rectangles_change_nothing(
    d: Display,
    x: u16,
    y: u16,
    width: u16,
    height: u16,
    rgba: Seq<u8>,
)
    requires
        x >= d.width || y >= d.height || width == 0 || height == 0 || (x + width <= d.width && y
            + height <= d.height && rgba.len() < 4 * (height * width)),
    ensures
        d.applied(Update::Rect { x, y, width, height, rgba }) == d,
{
    let (w, h) = (width as int, height as int);
    assert(h * (4 * w) == 4 * (h * w)) by (nonlinear_arith);
}

/// Updates are applied in their order.
pub proof fn updates_come_in_order(d: Display, first: Seq<Update>, then: Seq<Update>)
    ensures
        d.applied_all(first + then, (first.len() + then.len()) as int) == d.applied_all(
            first,
            first.len() as int,
        ).applied_all(then, then.len() as int),
{
    lemma_prefix(d, first, first + then, first.len() as int);
    lemma_rest(d, first, then, then.len() as int);
}

proof fn lemma_prefix(d: Display, first: Seq<Update>, all: Seq<Update>, n: int)
    requires
        0 <= n <= first.len() <= all.len(),
        forall|i: int| 0 <= i < first.len() ==> all[i] == #[trigger] first[i],
    ensures
        d.applied_all(all, n) == d.applied_all(first, n),
    decreases n,
{
    if n > 0 {
        lemma_prefix(d, first, all, n - 1);
        assert(all[n - 1] == first[n - 1]);
    }
}

proof fn lemma_rest(d: Display, first: Seq<Update>, then: Seq<Update>, n: int)
    requires
        0 <= n <= then.len(),
    ensures
        d.applied_all(first + then, first.len() + n) == d.applied_all(
            first,
            first.len() as int,
        ).applied_all(then, n),
    decreases n,
{
    if n > 0 {
        lemma_rest(d, first, then, n - 1);
        assert((first + then)[first.len() + n - 1] == then[n - 1]);
    } else {
        lemma_prefix(d, first, first + then, first.len() as int);
    }
}

/// A batch of rectangles alone is uploaded whole where it is the first one or has more than 256. Any
/// other batch is uploaded as its updates ask, and forgets the rectangles of the batch before.
pub proof fn batches_are_uploaded_whole_at_times(d: Display, rects: Seq<Update>)
    requires
        rects.len() > 0,
        forall|i: int| 0 <= i < rects.len() ==> #[trigger] rects[i] is Rect,
    ensures
        d.frame_seq == 0 || rects.len() > 256 ==> d.batched(rects).full_upload && d.batched(
            rects,
        ).dirty.len() == 0,
        d.frame_seq != 0 && rects.len() <= 256 && !d.full_upload ==> d.batched(rects) == (Display {
            dirty: Seq::empty(),
            ..d
        }).applied_all(rects, rects.len() as int),
        d.batched(rects).rgba == (if d.full_upload {
            d
        } else {
            Display { dirty: Seq::empty(), ..d }
        }).applied_all(rects, rects.len() as int).rgba,
{
    lemma_no_fulls(rects, rects.len() as int);
}

proof fn lemma_no_fulls(rects: Seq<Update>, n: int)
    requires
        0 <= n <= rects.len(),
        forall|i: int| 0 <= i < rects.len() ==> #[trigger] rects[i] is Rect,
    ensures
        crate::remote_display::display::full_count(rects, n) == 0,
    decreases n,
{
    if n > 0 {
        lemma_no_fulls(rects, n - 1);
        assert(rects[n - 1] is Rect);
    }
}

/// Each changed rectangle that lies on the picture is uploaded with its pixels, in order.
#[verifier::rlimit(40)]
pub proof fn changed_rectangles_are_uploaded(
    rgba: Seq<u8>,
    width: u32,
    height: int,
    rects: Seq<DirtyRect>,
    n: int,
    i: int,
    x: int,
    y: int,
    c: int,
)
    requires
        holds_picture(rgba, width as int, height),
        0 < width,
        0 <= i < n <= rects.len(),
        forall|k: int|
            0 <= k < rects.len() ==> (#[trigger] rects[k]).width > 0 && rects[k].height > 0
                && rects[k].x + rects[k].width <= width && rects[k].y + rects[k].height <= height,
        0 <= x < rects[i].width,
        0 <= y < rects[i].height,
        0 <= c < 4,
    ensures
        ({
            let uploads = rect_uploads(rgba, width, rects, n);
            &&& uploads.len() == n
            &&& uploads[i].rect == rects[i]
            &&& uploads[i].rgba.len() == 4 * (rects[i].height * rects[i].width)
            &&& uploads[i].rgba[pixel_at(rects[i].width as int, x, y, c)] == rgba[pixel_at(
                width as int,
                rects[i].x + x,
                rects[i].y + y,
                c,
            )]
        }),
    decreases n,
{
    let last = rects[n - 1];
    reading_a_rectangle(rgba, width, height, last, x, y, c);
    lemma_upload_count(rgba, width, height, rects, n - 1);
    lemma_upload_count(rgba, width, height, rects, n);
    assert(0 < last.height * last.width) by (nonlinear_arith)
        requires
            last.height > 0,
            last.width > 0,
    ;
    if i < n - 1 {
        changed_rectangles_are_uploaded(rgba, width, height, rects, n - 1, i, x, y, c);
    }
}

proof fn lemma_upload_count(rgba: Seq<u8>, width: u32, height: int, rects: Seq<DirtyRect>, n: int)
    requires
        holds_picture(rgba, width as int, height),
        0 < width,
        0 <= n <= rects.len(),
        forall|k: int|
            0 <= k < rects.len() ==> (#[trigger] rects[k]).width > 0 && rects[k].height > 0
                && rects[k].x + rects[k].width <= width && rects[k].y + rects[k].height <= height,
    ensures
        rect_uploads(rgba, width, rects, n).len() == n,
    decreases n,
{
    if n > 0 {
        let last = rects[n - 1];
        lemma_upload_count(rgba, width, height, rects, n - 1);
        reading_a_rectangle(rgba, width, height, last, 0, 0, 0);
        assert(0 < last.height * last.width) by (nonlinear_arith)
            requires
                last.height > 0,
                last.width > 0,
        ;
    }
}

/// Of a rectangle that reaches beyond the picture, the part on the picture is written, with as many
/// pixels to a row of its source as the part has.
#[verifier::rlimit(40)]
pub proof fn rectangles_are_cut_at_the_edges(
    d: Display,
    x: u16,
    y: u16,
    width: u16,
    height: u16,
    rgba: Seq<u8>,
    px: int,
    py: int,
    c: int,
)
    requires
        d.rgba.len() == 4 * (d.height * d.width),
        width > 0,
        height > 0,
        x < d.width < x + width,
        y < d.height < y + height,
        rgba.len() >= 4 * ((d.height - y) * (d.width - x)),
        0 <= px < d.width,
        0 <= py < d.height,
        0 <= c < 4,
    ensures
        ({
            let after = d.applied(Update::Rect { x, y, width, height, rgba });
            let at = pixel_at(d.width as int, px, py, c);
            let inside = x <= px && y <= py;
            &&& inside ==> after.rgba[at] == rgba[pixel_at(d.width - x, px - x, py - y, c)]
            &&& !inside ==> after.rgba[at] == d.rgba[at]
            &&& after.width == d.width && after.height == d.height
        }),
{
    let (w, h) = (d.width - x, d.height - y);
    let rect = DirtyRect { x: x as u32, y: y as u32, width: w as u32, height: h as u32 };
    assert(h * (4 * w) == 4 * (h * w)) by (nonlinear_arith);
    writing_a_rectangle(d.rgba, d.width as u32, d.height as int, rect, rgba, px, py, c);
}

/// A whole picture takes the place of the one before, and is uploaded whole. Frames are counted,
/// around the end of the range.
pub proof fn whole_pictures_replace(d: Display, width: u16, height: u16, rgba: Seq<u8>)
    ensures
        ({
            let after = d.applied(Update::Full { width, height, rgba });
            &&& after.width == width && after.height == height && after.rgba == rgba
            &&& after.full_upload && after.frame_ready && after.dirty.len() == 0
            &&& d.frame_seq < u64::MAX ==> after.frame_seq == d.frame_seq + 1
            &&& d.frame_seq == u64::MAX ==> after.frame_seq == 0
            &&& after.source_id == d.source_id && after.status == d.status
        }),
{
}

/// A fresh picture is black and transparent, and all of it is to be uploaded.
pub proof fn fresh_pictures_are_empty(source_id: u64, width: u16, height: u16, i: int)
    requires
        0 <= i < 4 * (height * width),
    ensures
        ({
            let d = Display::fresh(source_id, width, height);
            &&& d.rgba.len() == 4 * (height * width)
            &&& d.rgba[i] == 0
            &&& d.width == width && d.height == height && d.source_id == source_id
            &&& d.full_upload && !d.frame_ready && d.frame_seq == 0 && d.status is None
        }),
{
    let (w, h) = (width as int, height as int);
    assert(w * h * 4 == 4 * (h * w)) by (nonlinear_arith);
}

} // verus!
