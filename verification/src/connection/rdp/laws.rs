//! What the pictures and inputs of an RDP session come to.
use crate::connection::rdp::bitmap::{flipped, surface_pixels, PixelLayout};
use crate::connection::rdp::decode::{
    bitmap_update, io_channel_message, rdp6_pixels, rle_pixels, send_data_indication, About,
    IoMessage, Message, RleFormat, Tile,
};
use crate::connection::rdp::gfx::{message_of, Gfx};
use crate::connection::rdp::input::{Held, KeyOperation, WireEvent};
use crate::connection::rdp::slowpath::{decoded_updates, raw_updates, slowpath_updates};
use crate::connection::rdp::worker::{
    image_update, modifier_keys, releases, sent, without_keys, Act, ScreenRect, Worker,
};
use crate::connection::rdp::zgfx::zgfx_taken;
use crate::connection::types::{Event, Input, KeyboardIndicators, RemoteInput, RemoteMouseButton};
use crate::remote_display::display::Update;
use crate::remote_display::pixel_laws::{
    holds_picture, lemma_pixel_in, pixel_at, reading_a_rectangle,
};
use crate::remote_display::renderer::DirtyRect;
use vstd::arithmetic::div_mod::lemma_fundamental_div_mod_converse;
use vstd::prelude::*;

verus! {

/// Rows of a picture, top first, as a bitmap holds them: the bottom row comes first.
pub open spec fn bottom_up(rows: Seq<Seq<u8>>) -> Seq<u8>
    decreases rows.len(),
{
    if rows.len() == 0 {
        Seq::empty()
    } else {
        bottom_up(rows.drop_first()) + rows[0]
    }
}

/// How many bytes a pixel has.
pub open spec fn bytes_each(layout: PixelLayout) -> int {
    match layout {
        PixelLayout::Rgb16 => 2,
        PixelLayout::Rgb24 => 3,
        PixelLayout::Bgr24 => 3,
        PixelLayout::Bgrx => 4,
    }
}

/// Whether every row holds `width` pixels.
pub open spec fn rows_hold(rows: Seq<Seq<u8>>, layout: PixelLayout, width: int) -> bool {
    forall|y: int|
        0 <= y < rows.len() ==> (#[trigger] rows[y]).len() == bytes_each(layout) * width
}

/// Whether four bytes are the opaque pixel `x` of a row: with red, green and blue in the order of the
/// layout, and with sixteen bits each channel in the high bits of its byte, of which the low ones
/// repeat the first.
pub open spec fn is_pixel(layout: PixelLayout, row: Seq<u8>, x: int, rgba: Seq<u8>) -> bool {
    let (r, g, b) = (rgba[0] as int, rgba[1] as int, rgba[2] as int);
    &&& rgba.len() == 4
    &&& rgba[3] == 255
    &&& match layout {
        PixelLayout::Rgb24 => r == row[3 * x] && g == row[3 * x + 1] && b == row[3 * x + 2],
        PixelLayout::Bgr24 => b == row[3 * x] && g == row[3 * x + 1] && r == row[3 * x + 2],
        PixelLayout::Bgrx => b == row[4 * x] && g == row[4 * x + 1] && r == row[4 * x + 2],
        PixelLayout::Rgb16 => {
            let v = row[2 * x] + 256 * row[2 * x + 1];
            &&& v == 2048 * (r / 8) + 32 * (g / 4) + b / 8
            &&& r % 8 == r / 32
            &&& g % 4 == g / 64
            &&& b % 8 == b / 32
        },
    }
}

/// The four bytes of a pixel.
pub open spec fn pixel_of(rgba: Seq<u8>, width: int, x: int, y: int) -> Seq<u8> {
    rgba.subrange(pixel_at(width, x, y, 0), pixel_at(width, x, y, 0) + 4)
}

proof fn lemma_bottom_up(rows: Seq<Seq<u8>>, stride: int, y: int, i: int)
    requires
        forall|k: int| 0 <= k < rows.len() ==> (#[trigger] rows[k]).len() == stride,
    ensures
        bottom_up(rows).len() == rows.len() * stride,
        0 <= y < rows.len() && 0 <= i < stride ==> 0 <= (rows.len() - 1 - y) * stride + i
            < bottom_up(rows).len() && bottom_up(rows)[(rows.len() - 1 - y) * stride + i]
            == rows[y][i],
    decreases rows.len(),
{
    let n = rows.len() as int;
    if n > 0 {
        let rest = rows.drop_first();
        assert forall|k: int| 0 <= k < rest.len() implies (#[trigger] rest[k]).len() == stride by {
            assert(rest[k] == rows[k + 1]);
        }
        lemma_bottom_up(rest, stride, y - 1, i);
        assert(rows[0].len() == stride);
        assert((n - 1) * stride + stride == n * stride) by (nonlinear_arith);
        if 0 <= y < n && 0 <= i < stride {
            let m = n - 1 - y;
            assert(0 <= m * stride && m * stride + stride <= n * stride) by (nonlinear_arith)
                requires
                    0 <= m,
                    m + 1 <= n,
                    0 <= stride,
            ;
            if y > 0 {
                assert(m * stride + stride <= (n - 1) * stride) by (nonlinear_arith)
                    requires
                        m + 1 <= n - 1,
                        0 <= stride,
                ;
                assert(rest.len() - 1 - (y - 1) == m);
                assert(rest[y - 1] == rows[y]);
            }
        }
    } else {
        assert(0 * stride == 0) by (nonlinear_arith);
    }
}

proof fn lemma_pixel_index(w: int, h: int, x: int, y: int)
    requires
        0 <= x < w,
        0 <= y < h,
    ensures
        ({
            let at = pixel_at(w, x, y, 0);
            &&& 0 <= at && at + 4 <= 4 * (h * w)
            &&& at % 4 == 0
            &&& at / 4 == y * w + x
            &&& (y * w + x) / w == y
            &&& (y * w + x) % w == x
        }),
{
    lemma_pixel_in(w, h, x, y, 3);
    lemma_pixel_in(w, h, x, y, 0);
    lemma_fundamental_div_mod_converse(y * w + x, w, y, x);
}

/// A bitmap shows its rows upright: the pixel in column `x` of row `y` is pixel `x` of that row,
/// however wide the rows of the bitmap and the picture are. What the bitmap does not reach is clear.
#[verifier::rlimit(30)]
#[verifier::spinoff_prover]
pub proof fn bitmaps_come_upright(
    layout: PixelLayout,
    rows: Seq<Seq<u8>>,
    row_width: int,
    width: int,
    height: int,
    x: int,
    y: int,
)
    requires
        row_width >= 0,
        rows_hold(rows, layout, row_width),
        0 <= x < width,
        0 <= y < height,
    ensures
        ({
            let picture = flipped(
                layout,
                bottom_up(rows),
                row_width,
                rows.len() as int,
                width,
                height,
            );
            let pixel = pixel_of(picture, width, x, y);
            &&& picture.len() == 4 * (height * width)
            &&& x < row_width && y < rows.len() ==> is_pixel(layout, rows[y], x, pixel)
            &&& x >= row_width || y >= rows.len() ==> pixel == seq![0u8, 0, 0, 0]
        }),
{
    let src = bottom_up(rows);
    let n = rows.len() as int;
    let size = bytes_each(layout);
    let stride = size * row_width;
    let picture = flipped(layout, src, row_width, n, width, height);
    lemma_pixel_index(width, height, x, y);
    let pixel = pixel_of(picture, width, x, y);
    if x < row_width && y < n {
        let from = (n - 1 - y) * stride + size * x;
        assert(rows[y].len() == stride);
        assert(0 <= size * x && size * x + size <= stride) by (nonlinear_arith)
            requires
                0 <= x,
                x + 1 <= row_width,
                0 < size,
                stride == size * row_width,
        ;
        lemma_bottom_up(rows, stride, y, size * x);
        lemma_bottom_up(rows, stride, y, size * x + 1);
        if size > 2 {
            lemma_bottom_up(rows, stride, y, size * x + 2);
        }
        lemma_bottom_up(rows, stride, y, size * x + size - 1);
        lemma_pixel_bytes(layout, src, row_width, n, width, height, x, y);
        let row = rows[y];
        assert(src[from] == row[size * x] && src[from + 1] == row[size * x + 1]);
        if layout == PixelLayout::Rgb16 {
            lemma_sixteen_bits(row[2 * x] + 256 * row[2 * x + 1]);
        }
    } else {
        lemma_pixel_bytes(layout, src, row_width, n, width, height, x, y);
        assert(pixel =~= seq![0u8, 0, 0, 0]);
    }
}

/// Sixteen bits fall into five, six and five, and each stretched channel has them on top.
proof fn lemma_sixteen_bits(v: int)
    requires
        0 <= v < 65536,
    ensures
        ({
            let r = crate::connection::rdp::bitmap::widen5(v / 2048);
            let g = crate::connection::rdp::bitmap::widen6((v / 32) % 64);
            let b = crate::connection::rdp::bitmap::widen5(v % 32);
            &&& 0 <= r < 256 && 0 <= g < 256 && 0 <= b < 256
            &&& v == 2048 * (r / 8) + 32 * (g / 4) + b / 8
            &&& r % 8 == r / 32
            &&& g % 4 == g / 64
            &&& b % 8 == b / 32
        }),
{
    let (r5, g6, b5) = (v / 2048, (v / 32) % 64, v % 32);
    assert(v == 2048 * r5 + 32 * g6 + b5);
    assert(0 <= r5 < 32 && 0 <= g6 < 64 && 0 <= b5 < 32);
}

/// The four bytes of a pixel are its channels in the source, or zero where the source has none.
proof fn lemma_pixel_bytes(
    layout: PixelLayout,
    src: Seq<u8>,
    row_width: int,
    n: int,
    width: int,
    height: int,
    x: int,
    y: int,
)
    requires
        0 <= x < width,
        0 <= y < height,
    ensures
        ({
            let picture = flipped(layout, src, row_width, n, width, height);
            let pixel = pixel_of(picture, width, x, y);
            let size = bytes_each(layout);
            let from = (n - 1 - y) * (size * row_width) + size * x;
            let held = x < row_width && y < n && from + size <= src.len();
            &&& picture.len() == 4 * (height * width)
            &&& pixel.len() == 4
            &&& forall|c: int|
                0 <= c < 4 ==> #[trigger] pixel[c] == (if held {
                    crate::connection::rdp::bitmap::channel(layout, src, from, c)
                } else {
                    0
                })
        }),
{
    let picture = flipped(layout, src, row_width, n, width, height);
    let at = pixel_at(width, x, y, 0);
    lemma_pixel_index(width, height, x, y);
    let pixel = pixel_of(picture, width, x, y);
    assert forall|c: int| 0 <= c < 4 implies #[trigger] pixel[c] == picture[at + c] && (at + c) / 4
        == y * width + x && (at + c) % 4 == c by {}
}

proof fn lemma_same_byte(
    rows: Seq<Seq<u8>>,
    others: Seq<Seq<u8>>,
    stride: int,
    bytes: int,
    y: int,
    i: int,
)
    requires
        rows.len() == others.len(),
        forall|k: int| 0 <= k < rows.len() ==> (#[trigger] rows[k]).len() == stride,
        forall|k: int| 0 <= k < others.len() ==> (#[trigger] others[k]).len() == stride,
        forall|k: int, j: int|
            0 <= k < rows.len() && 0 <= j < bytes ==> #[trigger] rows[k][j] == others[k][j],
        0 <= y < rows.len(),
        0 <= i < bytes <= stride,
    ensures
        bottom_up(rows)[(rows.len() - 1 - y) * stride + i] == bottom_up(others)[(rows.len() - 1 - y)
            * stride + i],
{
    lemma_bottom_up(rows, stride, y, i);
    lemma_bottom_up(others, stride, y, i);
    assert(rows[y][i] == others[y][i]);
}

/// Pixels that pad the rows of a bitmap beyond the picture do not show.
#[verifier::rlimit(40)]
pub proof fn padding_does_not_show(
    layout: PixelLayout,
    rows: Seq<Seq<u8>>,
    others: Seq<Seq<u8>>,
    row_width: int,
    width: int,
    height: int,
)
    requires
        0 < width <= row_width,
        0 <= height,
        rows.len() == others.len(),
        rows_hold(rows, layout, row_width),
        rows_hold(others, layout, row_width),
        forall|y: int, i: int|
            0 <= y < rows.len() && 0 <= i < bytes_each(layout) * width ==> #[trigger] rows[y][i]
                == others[y][i],
    ensures
        flipped(layout, bottom_up(rows), row_width, rows.len() as int, width, height) == flipped(
            layout,
            bottom_up(others),
            row_width,
            rows.len() as int,
            width,
            height,
        ),
{
    let n = rows.len() as int;
    let size = bytes_each(layout);
    let stride = size * row_width;
    let one = flipped(layout, bottom_up(rows), row_width, n, width, height);
    let two = flipped(layout, bottom_up(others), row_width, n, width, height);
    assert forall|k: int| 0 <= k < one.len() implies #[trigger] one[k] == two[k] by {
        let y = (k / 4) / width;
        let x = (k / 4) % width;
        let from = (n - 1 - y) * stride + size * x;
        lemma_bottom_up(rows, stride, y, size * x);
        lemma_bottom_up(others, stride, y, size * x);
        assert(0 <= y) by (nonlinear_arith)
            requires
                y == (k / 4) / width,
                0 <= k,
                0 < width,
        ;
        assert(0 <= x < width) by (nonlinear_arith)
            requires
                x == (k / 4) % width,
                0 < width,
        ;
        if y < n {
            assert(0 <= size * x && size * x + size <= size * width) by (nonlinear_arith)
                requires
                    0 <= x,
                    x + 1 <= width,
                    0 < size,
            ;
            assert(size * width <= stride) by (nonlinear_arith)
                requires
                    width <= row_width,
                    0 < size,
                    stride == size * row_width,
            ;
            lemma_same_byte(rows, others, stride, size * width, y, size * x);
            lemma_same_byte(rows, others, stride, size * width, y, size * x + 1);
            if size > 2 {
                lemma_same_byte(rows, others, stride, size * width, y, size * x + 2);
            }
        }
    }
    assert(one =~= two);
}

/// Whether a tile has a source and a rectangle with pixels.
pub open spec fn is_regular(tile: Tile) -> bool {
    &&& tile.left <= tile.right
    &&& tile.top <= tile.bottom
    &&& tile.right - tile.left < 65535
    &&& tile.bottom - tile.top < 65535
    &&& tile.width > 0
    &&& tile.height > 0
}

/// A tile shows its pixels at its rectangle: from the planes where it is compressed with 32 bits,
/// from the runs where it is compressed with 16 or 24, and from its data where they are plain with 32
/// or 16 bits. Any other shows nothing.
#[verifier::rlimit(40)]
pub proof fn tiles_show_their_pixels(
    tile: Tile,
    planes: Option<Seq<u8>>,
    runs: Option<(RleFormat, Seq<u8>)>,
)
    requires
        is_regular(tile),
    ensures
        ({
            let update = tile.update(planes, runs);
            let (format, made) = runs->0;
            let packed = tile.compression_flags % 2 == 1;
            let bits = tile.bits_per_pixel;
            let width = tile.right - tile.left + 1;
            let height = tile.bottom - tile.top + 1;
            let shows = |layout: PixelLayout, pixels: Seq<u8>|
                {
                    &&& update is Some
                    &&& update->0 is Rect
                    &&& update->0->Rect_x == tile.left
                    &&& update->0->Rect_y == tile.top
                    &&& update->0->Rect_width == width
                    &&& update->0->Rect_height == height
                    &&& update->0->Rect_rgba == flipped(
                        layout,
                        pixels,
                        tile.width as int,
                        tile.height as int,
                        width,
                        height,
                    )
                };
            &&& packed && bits == 32 && planes is Some ==> shows(PixelLayout::Rgb24, planes->0)
            &&& packed && bits == 16 && runs is Some && format is Rgb16 ==> shows(
                PixelLayout::Rgb16,
                made,
            )
            &&& packed && bits == 24 && runs is Some && format is Rgb24 ==> shows(
                PixelLayout::Bgr24,
                made,
            )
            &&& !packed && bits == 32 ==> shows(PixelLayout::Bgrx, tile.data)
            &&& !packed && bits == 16 ==> shows(PixelLayout::Rgb16, tile.data)
            &&& packed && bits == 32 && planes is None ==> update is None
            &&& packed && (bits == 16 || bits == 24) && runs is None ==> update is None
            &&& !packed && bits != 32 && bits != 16 ==> update is None
            &&& packed && bits != 32 && bits != 16 && bits != 24 ==> update is None
        }),
{
}

/// The tiles of an update come in their order, and those that cannot be decoded are passed over.
pub proof fn tiles_come_in_order(first: Seq<Tile>, then: Seq<Tile>, tile: Tile)
    ensures
        decoded_updates(first + then) == decoded_updates(first) + decoded_updates(then),
        tile.decoded() is None ==> decoded_updates(seq![tile]).len() == 0,
        tile.decoded() is Some ==> decoded_updates(seq![tile]) == seq![tile.decoded()->0],
    decreases then.len(),
{
    reveal_with_fuel(decoded_updates, 2);
    assert(seq![tile].drop_last() =~= Seq::empty());
    assert(seq![tile].last() == tile);
    if tile.decoded() is Some {
        assert(decoded_updates(seq![tile]) =~= seq![tile.decoded()->0]);
    }
    if then.len() == 0 {
        assert(first + then =~= first);
        assert(decoded_updates(first) + decoded_updates(then) =~= decoded_updates(first));
    } else {
        tiles_come_in_order(first, then.drop_last(), tile);
        assert((first + then).drop_last() =~= first + then.drop_last());
        assert((first + then).last() == then.last());
        assert(decoded_updates(first + then) =~= decoded_updates(first) + decoded_updates(then));
    }
}

/// Only updates of type one, which stands in their first two bytes, hold tiles.
pub proof fn other_updates_show_nothing(raw: Seq<u8>)
    ensures
        raw.len() < 4 || raw[0] != 1 || raw[1] != 0 ==> raw_updates(raw).len() == 0,
        raw.len() >= 4 && raw[0] == 1 && raw[1] == 0 && bitmap_update(raw) is Some ==> raw_updates(
            raw,
        ) == decoded_updates(bitmap_update(raw)->0),
{
}

/// A changed rectangle of the session's image is shown with the pixels that the image has there.
/// Where the image has another pixel size, nothing is shown.
#[verifier::rlimit(40)]
pub proof fn changed_rectangles_are_shown(
    image: Seq<u8>,
    width: u16,
    height: int,
    rect: ScreenRect,
    x: int,
    y: int,
    c: int,
    other: int,
)
    requires
        holds_picture(image, width as int, height),
        rect.left <= rect.right < width,
        rect.top <= rect.bottom < height,
        rect.right - rect.left < 65535,
        rect.bottom - rect.top < 65535,
        rect.left <= x <= rect.right,
        rect.top <= y <= rect.bottom,
        0 <= c < 4,
    ensures
        ({
            let update = image_update(image, 4 * width, 4, rect);
            let w = rect.right - rect.left + 1;
            let h = rect.bottom - rect.top + 1;
            &&& update is Some
            &&& update->0 is Rect
            &&& update->0->Rect_x == rect.left && update->0->Rect_y == rect.top
            &&& update->0->Rect_width == w && update->0->Rect_height == h
            &&& update->0->Rect_rgba.len() == 4 * (h * w)
            &&& update->0->Rect_rgba[pixel_at(w, x - rect.left, y - rect.top, c)]
                == image[pixel_at(width as int, x, y, c)]
        }),
        other != 4 ==> image_update(image, 4 * width, other, rect) is None,
{
    let w = rect.right - rect.left + 1;
    let h = rect.bottom - rect.top + 1;
    let area = rect.area(4 * width);
    let r = DirtyRect {
        x: rect.left as u32,
        y: rect.top as u32,
        width: w as u32,
        height: h as u32,
    };
    reading_a_rectangle(image, width as u32, height, r, x - rect.left, y - rect.top, c);
    assert forall|row: int| 0 <= row < h implies #[trigger] area.row_start(row) + 4 * area.width
        <= image.len() by {
        lemma_pixel_in(width as int, height, rect.right as int, rect.top + row, 3);
    }
}

/// Two changed rectangles become the smallest one that has both.
pub proof fn waiting_rectangles_grow_no_more_than_needed(
    w: Worker,
    a: ScreenRect,
    b: ScreenRect,
    around: ScreenRect,
)
    requires
        w.pending == Some(a),
        around.left <= a.left && around.left <= b.left,
        around.top <= a.top && around.top <= b.top,
        around.right >= a.right && around.right >= b.right,
        around.bottom >= a.bottom && around.bottom >= b.bottom,
    ensures
        ({
            let both = w.absorbed(b).pending->0;
            &&& w.absorbed(b).pending is Some
            &&& both.left <= a.left && both.left <= b.left && both.left >= around.left
            &&& both.top <= a.top && both.top <= b.top && both.top >= around.top
            &&& both.right >= a.right && both.right >= b.right && both.right <= around.right
            &&& both.bottom >= a.bottom && both.bottom >= b.bottom && both.bottom <= around.bottom
        }),
        (Worker { pending: None, ..w }).absorbed(b).pending == Some(b),
{
}

/// What changed waits until 16 milliseconds have passed since the last frame, and is flushed after 50
/// where something changed at all.
pub proof fn changes_wait_for_their_time(w: Worker, rect: ScreenRect, since_ms: u64)
    ensures
        since_ms >= 16 ==> w.updated(rect, since_ms).pending is None,
        since_ms < 16 ==> w.updated(rect, since_ms).pending == w.absorbed(rect).pending,
        w.updates < u64::MAX ==> w.updated(rect, since_ms).updates == w.updates + 1,
        w.updated(rect, since_ms).held == w.held,
        w.flushes(since_ms) == (w.updates > 0 && since_ms >= 50),
{
}

/// The pixels of a surface have blue first; shown, they have red first. Without opacity they are
/// opaque.
pub proof fn surfaces_show_their_pixels(
    src: Seq<u8>,
    has_alpha: bool,
    width: int,
    height: int,
    i: int,
)
    requires
        src.len() == 4 * (height * width),
        0 <= i < height * width,
    ensures
        ({
            let shown = surface_pixels(src, has_alpha, width, height);
            &&& shown.len() == src.len()
            &&& shown[4 * i] == src[4 * i + 2]
            &&& shown[4 * i + 1] == src[4 * i + 1]
            &&& shown[4 * i + 2] == src[4 * i]
            &&& has_alpha ==> shown[4 * i + 3] == src[4 * i + 3]
            &&& !has_alpha ==> shown[4 * i + 3] == 255
        }),
{
    assert(width * height == height * width) by (nonlinear_arith);
    assert((4 * i) % 4 == 0 && (4 * i + 1) % 4 == 1 && (4 * i + 2) % 4 == 2 && (4 * i + 3) % 4
        == 3);
}

/// A new surface shows at the origin until it is mapped to another place, and other surfaces are not
/// touched. Compressed pixels, and those of a surface that is not there, show nothing.
pub proof fn surfaces_are_kept_apart(
    gfx: Gfx,
    surface_id: u16,
    other: u16,
    x: u32,
    y: u32,
    pixels: Message,
)
    requires
        pixels is Pixels,
    ensures
        ({
            let made = gfx.after(Message::CreateSurface { surface_id });
            let mapped = gfx.after(Message::MapSurfaceToOutput { surface_id, x, y });
            let gone = gfx.after(Message::DeleteSurface { surface_id });
            &&& made.surfaces.contains_key(surface_id)
            &&& made.surfaces[surface_id].output_origin_x == 0
            &&& made.surfaces[surface_id].output_origin_y == 0
            &&& gfx.surfaces.contains_key(surface_id) ==> {
                &&& mapped.surfaces[surface_id].output_origin_x == x
                &&& mapped.surfaces[surface_id].output_origin_y == y
            }
            &&& !gfx.surfaces.contains_key(surface_id) ==> mapped == gfx
            &&& !gone.surfaces.contains_key(surface_id)
            &&& other != surface_id ==> {
                &&& made.surfaces.contains_key(other) == gfx.surfaces.contains_key(other)
                &&& mapped.surfaces.contains_key(other) == gfx.surfaces.contains_key(other)
                &&& gone.surfaces.contains_key(other) == gfx.surfaces.contains_key(other)
                &&& made.surfaces[other] == gfx.surfaces[other]
                &&& mapped.surfaces[other] == gfx.surfaces[other]
                &&& gfx.surfaces.contains_key(other) ==> gone.surfaces[other]
                    == gfx.surfaces[other]
            }
            &&& made.frames_decoded == gfx.frames_decoded
            &&& gfx.after(pixels) == gfx
            &&& !pixels->uncompressed ==> gfx.update(pixels) is None
            &&& !gfx.surfaces.contains_key(pixels->Pixels_surface_id) ==> gfx.update(pixels) is None
        }),
{
}

/// A key goes down with its scancode, and up again only where it is down. Bit 0 of its flags says
/// that it goes up, bit 1 that its scancode is an extended one.
#[verifier::rlimit(40)]
pub proof fn keys_are_sent(w: Worker, code: u8, extended: bool)
    requires
        w.locks is None,
    ensures
        ({
            let press = Input::RemoteInput(
                RemoteInput::KeyboardScancode { code, extended, down: true },
            );
            let release = Input::RemoteInput(
                RemoteInput::KeyboardScancode { code, extended, down: false },
            );
            let key = |flags: u8| WireEvent::Key { flags, code };
            let (down, up): (u8, u8) = if extended {
                (2, 3)
            } else {
                (0, 1)
            };
            let held = w.held.keys.contains((extended, code));
            &&& !held ==> w.input_acts(press) == seq![Act::Send(seq![key(down)])]
            &&& held ==> w.input_acts(press) == seq![Act::Send(seq![key(up), key(down)])]
            &&& held ==> w.input_acts(release) == seq![Act::Send(seq![key(up)])]
            &&& !held ==> w.input_acts(release).len() == 0
            &&& w.after_input(press).held.keys.contains((extended, code))
            &&& !w.after_input(release).held.keys.contains((extended, code))
            &&& w.after_input(press).held.chars == w.held.chars
            &&& w.after_input(press).pending == w.pending
        }),
{
    let press = Input::RemoteInput(RemoteInput::KeyboardScancode { code, extended, down: true });
    let release = Input::RemoteInput(RemoteInput::KeyboardScancode { code, extended, down: false });
    let (down, up): (u8, u8) = if extended {
        (2, 3)
    } else {
        (0, 1)
    };
    let held = w.held.keys.contains((extended, code));
    let none = Seq::<Act>::empty();
    let events = if held {
        seq![WireEvent::Key { flags: up, code }, WireEvent::Key { flags: down, code }]
    } else {
        seq![WireEvent::Key { flags: down, code }]
    };
    assert(w.held.key_events(KeyOperation::Pressed { extended, code }) =~= events);
    assert(w.input_acts(press) =~= seq![Act::Send(events)]);
    if held {
        let ups = seq![WireEvent::Key { flags: up, code }];
        assert(w.held.key_events(KeyOperation::Released { extended, code }) =~= ups);
        assert(w.input_acts(release) =~= seq![Act::Send(ups)]);
    }
}

/// Before a key of the number pad goes down, the server is told the state of the lock keys where it
/// is known: one bit each for scroll, number and capitals lock. Other keys do not tell it.
#[verifier::rlimit(40)]
pub proof fn number_pad_keys_tell_the_locks(
    w: Worker,
    locks: KeyboardIndicators,
    code: u8,
    extended: bool,
    down: bool,
)
    requires
        w.locks == Some(locks),
    ensures
        ({
            let key = Input::RemoteInput(RemoteInput::KeyboardScancode { code, extended, down });
            let bare = (Worker { locks: None, ..w }).input_acts(key);
            let flags: u8 = match (locks.scroll_lock, locks.num_lock, locks.caps_lock) {
                (false, false, false) => 0,
                (true, false, false) => 1,
                (false, true, false) => 2,
                (true, true, false) => 3,
                (false, false, true) => 4,
                (true, false, true) => 5,
                (false, true, true) => 6,
                (true, true, true) => 7,
            };
            let pad = (0x47 <= code <= 0x49) || (0x4b <= code <= 0x4d) || (0x4f <= code <= 0x53);
            &&& down && pad ==> w.input_acts(key) == seq![Act::Sync(WireEvent::Sync { flags })]
                + bare
            &&& !down || !pad ==> w.input_acts(key) == bare
            &&& w.input_acts(Input::SyncKeyboardIndicators(locks)) == seq![
                Act::Sync(WireEvent::Sync { flags }),
            ]
            &&& w.after_input(Input::SyncKeyboardIndicators(locks)).locks == Some(locks)
        }),
{
    let key = Input::RemoteInput(RemoteInput::KeyboardScancode { code, extended, down });
    let bare = (Worker { locks: None, ..w }).input_acts(key);
    let pad = (0x47 <= code <= 0x49) || (0x4b <= code <= 0x4d) || (0x4f <= code <= 0x53);
    if !down || !pad {
        assert(w.input_acts(key) =~= bare);
    } else {
        assert(w.input_acts(key) =~= seq![w.input_acts(key)[0]] + bare);
    }
    assert(w.input_acts(Input::SyncKeyboardIndicators(locks)) =~= seq![
        w.input_acts(Input::SyncKeyboardIndicators(locks))[0],
    ]);
}

/// The mouse is reported where it moves to, its buttons where it is, and its wheels with the units
/// that they turned. A button that is down already is not pressed again.
#[verifier::rlimit(40)]
pub proof fn the_mouse_is_sent(
    w: Worker,
    x: u16,
    y: u16,
    button: RemoteMouseButton,
    delta: i16,
)
    ensures
        ({
            let moved = Input::RemoteInput(RemoteInput::MouseMove { x, y });
            let pressed = Input::RemoteInput(RemoteInput::MouseButton { button, down: true });
            let let_go = Input::RemoteInput(RemoteInput::MouseButton { button, down: false });
            let turned = Input::RemoteInput(RemoteInput::MouseWheel { delta });
            let sideways = Input::RemoteInput(RemoteInput::MouseHorizontalWheel { delta });
            let mouse = |flags: u16, rotation_units: i16, x: u16, y: u16|
                seq![Act::Send(seq![WireEvent::Mouse { flags, rotation_units, x, y }])];
            let flag: u16 = match button {
                RemoteMouseButton::Left => 0x1000,
                RemoteMouseButton::Right => 0x2000,
                RemoteMouseButton::Middle => 0x4000,
            };
            let (hx, hy) = (w.held.x, w.held.y);
            let held = w.held.buttons.contains(button);
            &&& x != hx || y != hy ==> w.input_acts(moved) == mouse(0x0800, 0, x, y)
            &&& x == hx && y == hy ==> w.input_acts(moved).len() == 0
            &&& w.after_input(moved).held.x == x && w.after_input(moved).held.y == y
            &&& !held ==> w.input_acts(pressed) == mouse((0x8000 + flag) as u16, 0, hx, hy)
            &&& held ==> w.input_acts(pressed).len() == 0
            &&& held ==> w.input_acts(let_go) == mouse(flag, 0, hx, hy)
            &&& !held ==> w.input_acts(let_go).len() == 0
            &&& w.after_input(pressed).held.buttons.contains(button)
            &&& !w.after_input(let_go).held.buttons.contains(button)
            &&& w.input_acts(turned) == mouse(0x0200, delta, hx, hy)
            &&& w.input_acts(sideways) == mouse(0x0400, delta, hx, hy)
            &&& w.after_input(turned) == w && w.after_input(sideways) == w
        }),
{
    let moved = Input::RemoteInput(RemoteInput::MouseMove { x, y });
    let pressed = Input::RemoteInput(RemoteInput::MouseButton { button, down: true });
    let let_go = Input::RemoteInput(RemoteInput::MouseButton { button, down: false });
    let turned = Input::RemoteInput(RemoteInput::MouseWheel { delta });
    let sideways = Input::RemoteInput(RemoteInput::MouseHorizontalWheel { delta });
    assert(forall|a: Seq<Act>| #[trigger] (Seq::<Act>::empty() + a) =~= a);
}

/// A resize asks for a desktop of that size, each side between 200 and 8192 pixels.
pub proof fn desktops_have_a_fair_size(w: Worker, cols: u16, rows: u16)
    ensures
        ({
            let acts = w.input_acts(Input::Resize { cols, rows });
            &&& acts.len() == 1
            &&& acts[0] matches Act::Resize { width, height } && 200 <= width <= 8192 && 200
                <= height <= 8192 && (200 <= cols <= 8192 ==> width == cols) && (200 <= rows <= 8192
                ==> height == rows) && (cols < 200 ==> width == 200) && (cols > 8192 ==> width
                == 8192) && (rows < 200 ==> height == 200) && (rows > 8192 ==> height == 8192)
        }),
{
}

/// A character goes down and up by its number, where it is no half of a pair. One that is down already
/// goes up first, and one that is not down is not released.
pub proof fn characters_are_sent(w: Worker, codepoint: u16)
    ensures
        ({
            let press = Input::RemoteInput(RemoteInput::KeyboardUnicode { codepoint, down: true });
            let release = Input::RemoteInput(
                RemoteInput::KeyboardUnicode { codepoint, down: false },
            );
            let half = 0xd800 <= codepoint <= 0xdfff;
            let c = codepoint as char;
            let key = |flags: u8| WireEvent::Unicode { flags, code: codepoint };
            let held = w.held.chars.contains(c);
            &&& half ==> w.input_acts(press).len() == 0 && w.input_acts(release).len() == 0
                && w.after_input(press) == w
            &&& !half && !held ==> w.input_acts(press) == seq![Act::Send(seq![key(0)])]
            &&& !half && held ==> w.input_acts(press) == seq![Act::Send(seq![key(1), key(0)])]
            &&& !half && held ==> w.input_acts(release) == seq![Act::Send(seq![key(1)])]
            &&& !half && !held ==> w.input_acts(release).len() == 0
            &&& !half ==> w.after_input(press).held.chars.contains(c)
            &&& !half ==> !w.after_input(release).held.chars.contains(c)
        }),
{
    assert(forall|a: Seq<Act>| #[trigger] (Seq::<Act>::empty() + a) =~= a);
    let c = codepoint as char;
    if !(0xd800 <= codepoint <= 0xdfff) {
        assert(c as int == codepoint);
        assert(c as u16 == codepoint);
    }
}

/// What changed is shown as one frame with the changed rectangle, and nothing where nothing changed.
pub proof fn what_changed_is_shown(w: Worker, image: Seq<u8>, stride: int, size: int, rect: ScreenRect)
    ensures
        (Worker { pending: None, ..w }).shown(image, stride, size) is None,
        image_update(image, stride, size, rect) matches Some(update) ==> (Worker {
            pending: Some(rect),
            ..w
        }).shown(image, stride, size) == Some(Event::Frames(seq![update])),
        image_update(image, stride, size, rect) is None ==> (Worker {
            pending: Some(rect),
            ..w
        }).shown(image, stride, size) is None,
{
}

/// Pixels of a surface show where its origin and their place in it lead, but not beyond what sixteen
/// bits hold.
pub proof fn surfaces_show_at_their_origin(
    gfx: Gfx,
    pixels: Message,
    x: u32,
    y: u32,
)
    requires
        pixels is Pixels,
        pixels->uncompressed,
        gfx.surfaces.contains_key(pixels->Pixels_surface_id),
        gfx.surfaces[pixels->Pixels_surface_id].output_origin_x == x,
        gfx.surfaces[pixels->Pixels_surface_id].output_origin_y == y,
        pixels->left <= pixels->right,
        pixels->top <= pixels->bottom,
        pixels->right - pixels->left < 65535,
        pixels->bottom - pixels->top < 65535,
    ensures
        ({
            let update = gfx.update(pixels);
            let left = x % 65536 + pixels->left;
            let top = y % 65536 + pixels->top;
            let width = pixels->right - pixels->left + 1;
            let height = pixels->bottom - pixels->top + 1;
            &&& update is Some
            &&& update->0 is Rect
            &&& left <= 65535 ==> update->0->Rect_x == left
            &&& left > 65535 ==> update->0->Rect_x == 65535
            &&& top <= 65535 ==> update->0->Rect_y == top
            &&& top > 65535 ==> update->0->Rect_y == 65535
            &&& update->0->Rect_width == width && update->0->Rect_height == height
            &&& update->0->Rect_rgba == surface_pixels(
                pixels->data,
                pixels->has_alpha,
                width,
                height,
            )
        }),
{
}

/// A tile's data are decoded with its own size and depth. Only the updates of the main channel hold
/// tiles.
pub proof fn tiles_are_decoded(tile: Tile, frame: Seq<u8>, raw: Seq<u8>)
    ensures
        tile.decoded() == tile.update(
            rdp6_pixels(tile.data, tile.width, tile.height),
            rle_pixels(tile.data, tile.width, tile.height, tile.bits_per_pixel),
        ),
        send_data_indication(frame) is None ==> slowpath_updates(frame).len() == 0,
        send_data_indication(frame) matches Some(data) ==> {
            &&& io_channel_message(data) is None ==> slowpath_updates(frame).len() == 0
            &&& io_channel_message(data) matches Some(
                IoMessage::Data { about, .. },
            ) ==> (about == About::Update(raw) ==> slowpath_updates(frame) == raw_updates(raw)) && (
            !(about is Update) ==> slowpath_updates(frame).len() == 0)
        },
{
}

/// A payload with pixels shows them where its surface stands on the screen, and acknowledges nothing.
/// Blue and red change places.
#[verifier::rlimit(40)]
pub proof fn payloads_show_their_pixels(
    gfx: Gfx,
    payload: Seq<u8>,
    bytes: Seq<u8>,
    surface_id: u16,
    has_alpha: bool,
    left: u16,
    top: u16,
    right: u16,
    bottom: u16,
    data: Seq<u8>,
    i: int,
)
    requires
        zgfx_taken(gfx.remembered, payload).bytes == Some(bytes),
        message_of(bytes) == Some(
            Message::Pixels {
                surface_id,
                uncompressed: true,
                has_alpha,
                left,
                top,
                right,
                bottom,
                data,
            },
        ),
        gfx.surfaces.contains_key(surface_id),
        gfx.surfaces[surface_id].output_origin_x + left <= 65535,
        gfx.surfaces[surface_id].output_origin_y + top <= 65535,
        left <= right < 65535,
        top <= bottom < 65535,
        data.len() == 4 * ((bottom - top + 1) * (right - left + 1)),
        0 <= i < (bottom - top + 1) * (right - left + 1),
    ensures
        gfx.payload_ack(payload) is None,
        gfx.after_payload(payload).surfaces == gfx.surfaces,
        gfx.after_payload(payload).frames_decoded == gfx.frames_decoded,
        match gfx.payload_update(payload) {
            Some(Update::Rect { x, y, width, height, rgba }) => {
                &&& x == gfx.surfaces[surface_id].output_origin_x + left
                &&& y == gfx.surfaces[surface_id].output_origin_y + top
                &&& width == right - left + 1
                &&& height == bottom - top + 1
                &&& rgba.len() == data.len()
                &&& rgba[4 * i] == data[4 * i + 2]
                &&& rgba[4 * i + 1] == data[4 * i + 1]
                &&& rgba[4 * i + 2] == data[4 * i]
                &&& has_alpha ==> rgba[4 * i + 3] == data[4 * i + 3]
                &&& !has_alpha ==> rgba[4 * i + 3] == 255
            },
            _ => false,
        },
{
    surfaces_show_their_pixels(data, has_alpha, right - left + 1, bottom - top + 1, i);
}

/// A payload about surfaces makes them, moves them and takes them away. It shows nothing and
/// acknowledges nothing.
pub proof fn payloads_keep_the_surfaces(
    gfx: Gfx,
    payload: Seq<u8>,
    bytes: Seq<u8>,
    message: Message,
    id: u16,
)
    requires
        zgfx_taken(gfx.remembered, payload).bytes == Some(bytes),
        message_of(bytes) == Some(message),
        message is CreateSurface || message is DeleteSurface || message is MapSurfaceToOutput
            || message is ResetGraphics,
    ensures
        gfx.payload_ack(payload) is None,
        gfx.payload_update(payload) is None,
        gfx.after_payload(payload).frames_decoded == gfx.frames_decoded,
        ({
            let before = gfx.surfaces;
            let after = gfx.after_payload(payload).surfaces;
            match message {
                Message::CreateSurface { surface_id } => if id == surface_id {
                    &&& after.contains_key(id)
                    &&& after[id].output_origin_x == 0
                    &&& after[id].output_origin_y == 0
                } else {
                    &&& after.contains_key(id) == before.contains_key(id)
                    &&& before.contains_key(id) ==> after[id] == before[id]
                },
                Message::DeleteSurface { surface_id } => if id == surface_id {
                    !after.contains_key(id)
                } else {
                    &&& after.contains_key(id) == before.contains_key(id)
                    &&& before.contains_key(id) ==> after[id] == before[id]
                },
                Message::MapSurfaceToOutput { surface_id, x, y } => {
                    &&& after.contains_key(id) == before.contains_key(id)
                    &&& before.contains_key(id) && id == surface_id ==> after[id].output_origin_x
                        == x && after[id].output_origin_y == y
                    &&& before.contains_key(id) && id != surface_id ==> after[id] == before[id]
                },
                _ => !after.contains_key(id),
            }
        }),
{
}

/// The sending that a key goes up.
pub open spec fn going_up(key: (bool, u8)) -> Act {
    let (extended, code) = key;
    Act::Send(
        seq![
            WireEvent::Key {
                flags: if extended {
                    3
                } else {
                    1
                },
                code,
            },
        ],
    )
}

/// Whether a key is one of the two Shift, Control, Alt and Windows keys.
pub open spec fn is_modifier(key: (bool, u8)) -> bool {
    let (extended, code) = key;
    ||| code == 0x1d || code == 0x38
    ||| !extended && (code == 0x2a || code == 0x36)
    ||| extended && (code == 0x5b || code == 0x5c)
}

proof fn lemma_releases(h: Held, keys: Seq<(bool, u8)>)
    requires
        keys.no_duplicates(),
    ensures
        forall|key: (bool, u8)|
            #[trigger] without_keys(h, keys).keys.contains(key) == (h.keys.contains(key)
                && !keys.contains(key)),
        forall|key: (bool, u8)|
            releases(h, keys).contains(#[trigger] going_up(key)) == (h.keys.contains(key)
                && keys.contains(key)),
        releases(h, keys).no_duplicates(),
        forall|i: int|
            0 <= i < releases(h, keys).len() ==> exists|key: (bool, u8)|
                (#[trigger] releases(h, keys)[i]) == #[trigger] going_up(key),
    decreases keys.len(),
{
    let all = releases(h, keys);
    if keys.len() > 0 {
        let fewer = keys.drop_last();
        let last = keys.last();
        let (extended, code) = last;
        lemma_releases(h, fewer);
        assert(!fewer.contains(last));
        assert forall|key: (bool, u8)| keys.contains(key) == (fewer.contains(key) || key == last) by {
            if fewer.contains(key) {
                let i = choose|i: int| 0 <= i < fewer.len() && fewer[i] == key;
                assert(keys[i] == key);
            }
            if keys.contains(key) && key != last {
                let i = choose|i: int| 0 <= i < keys.len() && keys[i] == key;
                assert(fewer[i] == key);
            }
            if key == last {
                assert(keys[keys.len() - 1] == key);
            }
        }
        let before = releases(h, fewer);
        let more = sent(
            without_keys(h, fewer).key_events(KeyOperation::Released { extended, code }),
        );
        assert(all == before + more);
        if h.keys.contains(last) {
            assert(more =~= seq![going_up(last)]);
            assert(all =~= before.push(going_up(last)));
            assert(!before.contains(going_up(last)));
        } else {
            assert(more =~= Seq::empty());
            assert(all =~= before);
        }
        assert forall|key: (bool, u8)|
            all.contains(#[trigger] going_up(key)) == (h.keys.contains(key) && keys.contains(
                key,
            )) by {
            if before.contains(going_up(key)) {
                let i = choose|i: int| 0 <= i < before.len() && before[i] == going_up(key);
                assert(all[i] == going_up(key));
            }
            if all.contains(going_up(key)) && !before.contains(going_up(key)) {
                let i = choose|i: int| 0 <= i < all.len() && all[i] == going_up(key);
                if i < before.len() {
                    assert(before[i] == going_up(key));
                }
                lemma_going_up(key, last);
            }
            if key == last && h.keys.contains(last) {
                assert(all[before.len() as int] == going_up(last));
            }
        }
        assert forall|i: int| 0 <= i < all.len() implies exists|key: (bool, u8)|
            (#[trigger] all[i]) == #[trigger] going_up(key) by {
            if i < before.len() {
                assert(all[i] == before[i]);
            } else {
                assert(all[i] == going_up(last));
            }
        }
    }
}

proof fn lemma_going_up(a: (bool, u8), b: (bool, u8))
    ensures
        going_up(a) == going_up(b) ==> a == b,
{
    let (ae, ac) = a;
    let (be, bc) = b;
    if going_up(a) == going_up(b) {
        assert(going_up(a)->Send_0[0] == going_up(b)->Send_0[0]);
    }
}

/// When all modifiers are to be released, no key goes up twice, and nothing else is sent.
pub proof fn held_modifiers_go_up(w: Worker, i: int, j: int)
    requires
        0 <= i < w.input_acts(Input::ReleaseAllModifiers).len(),
        0 <= j < w.input_acts(Input::ReleaseAllModifiers).len(),
    ensures
        ({
            let acts = w.input_acts(Input::ReleaseAllModifiers);
            &&& i != j ==> acts[i] != acts[j]
            &&& exists|k: (bool, u8)| acts[i] == #[trigger] going_up(k)
        }),
{
    lemma_modifier_releases(w, (false, 0x2a));
}

/// When all modifiers are to be released, a key goes up if it is a modifier and is down.
pub proof fn only_held_modifiers_go_up(w: Worker, key: (bool, u8))
    ensures
        w.input_acts(Input::ReleaseAllModifiers).contains(going_up(key)) == (is_modifier(key)
            && w.held.keys.contains(key)),
{
    lemma_modifier_releases(w, key);
}

proof fn lemma_modifier_releases(w: Worker, key: (bool, u8))
    ensures
        ({
            let acts = w.input_acts(Input::ReleaseAllModifiers);
            &&& acts.contains(going_up(key)) == (is_modifier(key) && w.held.keys.contains(key))
            &&& acts.no_duplicates()
            &&& forall|i: int|
                0 <= i < acts.len() ==> exists|k: (bool, u8)|
                    (#[trigger] acts[i]) == #[trigger] going_up(k)
        }),
{
    let keys = modifier_keys();
    lemma_releases(w.held, keys);
    assert(w.input_acts(Input::ReleaseAllModifiers) =~= releases(w.held, keys));
    if is_modifier(key) {
        assert(keys.contains(key)) by {
            assert(keys[0] == (false, 0x2au8) && keys[1] == (false, 0x36u8));
            assert(keys[2] == (false, 0x1du8) && keys[3] == (true, 0x1du8));
            assert(keys[4] == (false, 0x38u8) && keys[5] == (true, 0x38u8));
            assert(keys[6] == (true, 0x5bu8) && keys[7] == (true, 0x5cu8));
        }
    }
}

} // verus!
