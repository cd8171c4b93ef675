//! Bitmap updates outside the fast path.
use crate::connection::rdp::bitmap::{
    bgr24_to_rgba_flip, bgrx_to_rgba_flip, flipped, rgb16_to_rgba_flip, rgb24_to_rgba_flip,
    PixelLayout,
};
use crate::connection::rdp::decode::{
    bitmap_rects, bitmap_update, bytes_view, channel_data, channel_message, io_channel_message,
    rdp6_decode, rdp6_pixels, rle_decode, rle_pixels, send_data_indication, tiles, About,
    BitmapRect, IoDetail, IoMessage, IoPdu, RleFormat, Tile,
};
use crate::remote_display::display::{updates_view, FrameUpdate, Update};
use vstd::prelude::*;

verus! {

/// The number of places from `low` to `high`, both counted, around the end of the range.
pub open spec fn places(low: u16, high: u16) -> u16 {
    ((high - low + 1) % 65536) as u16
}

/// Counts the places from `low` to `high`.
pub fn count_places(low: u16, high: u16) -> (n: u16)
    ensures
        n == places(low, high),
{
    high.wrapping_sub(low).wrapping_add(1)
}

impl Tile {
    /// The width of the rectangle on the screen.
    pub open spec fn rect_w(self) -> u16 {
        places(self.left, self.right)
    }

    /// The height of the rectangle on the screen.
    pub open spec fn rect_h(self) -> u16 {
        places(self.top, self.bottom)
    }

    /// Whether neither the source nor the rectangle is empty.
    pub open spec fn has_pixels(self) -> bool {
        self.rect_w() != 0 && self.rect_h() != 0 && self.width != 0 && self.height != 0
    }

    /// Whether the pixels were sent compressed.
    pub open spec fn compressed(self) -> bool {
        self.compression_flags % 2 == 1
    }

    /// The top-down picture of the rectangle, from pixels of the given layout.
    pub open spec fn picture(self, layout: PixelLayout, pixels: Seq<u8>) -> Seq<u8> {
        flipped(
            layout,
            pixels,
            self.width as int,
            self.height as int,
            self.rect_w() as int,
            self.rect_h() as int,
        )
    }

    /// The picture of the rectangle, where `planes` is what the planar decoder makes of the data
    /// and `runs` what the run-length decoder makes of them. Compressed pixels of 32 bits are
    /// planar; those of 16 and 24 bits are run-length encoded.
    pub open spec fn rgba(self, planes: Option<Seq<u8>>, runs: Option<(RleFormat, Seq<u8>)>)
        -> Option<Seq<u8>> {
        if !self.has_pixels() {
            None
        } else if self.compressed() && self.bits_per_pixel == 32 {
            match planes {
                Some(pixels) => Some(self.picture(PixelLayout::Rgb24, pixels)),
                None => None,
            }
        } else if self.compressed() && self.bits_per_pixel == 16 {
            match runs {
                Some((RleFormat::Rgb16, pixels)) => Some(self.picture(PixelLayout::Rgb16, pixels)),
                _ => None,
            }
        } else if self.compressed() && self.bits_per_pixel == 24 {
            match runs {
                Some((RleFormat::Rgb24, pixels)) => Some(self.picture(PixelLayout::Bgr24, pixels)),
                _ => None,
            }
        } else if !self.compressed() && self.bits_per_pixel == 32 {
            Some(self.picture(PixelLayout::Bgrx, self.data))
        } else if !self.compressed() && self.bits_per_pixel == 16 {
            Some(self.picture(PixelLayout::Rgb16, self.data))
        } else {
            None
        }
    }

    /// The change of the picture that the bitmap stands for.
    pub open spec fn update(self, planes: Option<Seq<u8>>, runs: Option<(RleFormat, Seq<u8>)>)
        -> Option<Update> {
        match self.rgba(planes, runs) {
            Some(rgba) => Some(
                Update::Rect {
                    x: self.left,
                    y: self.top,
                    width: self.rect_w(),
                    height: self.rect_h(),
                    rgba,
                },
            ),
            None => None,
        }
    }

    /// The change of the picture, with the data decoded as they are.
    pub open spec fn decoded(self) -> Option<Update> {
        self.update(
            rdp6_pixels(self.data, self.width, self.height),
            rle_pixels(self.data, self.width, self.height, self.bits_per_pixel),
        )
    }
}

/// What run-length decoding gave, as a mathematical value.
pub open spec fn runs_view(runs: Option<(RleFormat, Vec<u8>)>) -> Option<(RleFormat, Seq<u8>)> {
    match runs {
        Some((format, pixels)) => Some((format, pixels@)),
        None => None,
    }
}

/// An optional change of the picture as a mathematical value.
pub open spec fn update_view(update: Option<FrameUpdate>) -> Option<Update> {
    match update {
        Some(u) => Some(u@),
        None => None,
    }
}

/// The changes that bitmaps stand for, in their order. Those that cannot be decoded are passed
/// over.
pub open spec fn decoded_updates(tiles: Seq<Tile>) -> Seq<Update>
    decreases tiles.len(),
{
    if tiles.len() == 0 {
        Seq::empty()
    } else {
        let before = decoded_updates(tiles.drop_last());
        match tiles.last().decoded() {
            Some(update) => before.push(update),
            None => before,
        }
    }
}

/// Whether an update holds bitmaps: its type, low byte first, is 1.
pub open spec fn is_bitmap_update(raw: Seq<u8>) -> bool {
    raw.len() >= 4 && raw[0] == 1 && raw[1] == 0
}

/// The changes that an update stands for.
pub open spec fn raw_updates(raw: Seq<u8>) -> Seq<Update> {
    if !is_bitmap_update(raw) {
        Seq::empty()
    } else {
        match bitmap_update(raw) {
            Some(tiles) => decoded_updates(tiles),
            None => Seq::empty(),
        }
    }
}

/// The changes that a frame stands for.
pub open spec fn slowpath_updates(frame: Seq<u8>) -> Seq<Update> {
    match send_data_indication(frame) {
        Some(data) => match io_channel_message(data) {
            Some(IoMessage::Data { about: About::Update(raw), .. }) => raw_updates(raw),
            _ => Seq::empty(),
        },
        None => Seq::empty(),
    }
}

/// The change that a bitmap stands for, where `planes` is what the planar decoder made of its
/// data, and `runs` what the run-length decoder made of them.
pub fn rect_update(
    rect: &BitmapRect,
    planes: Option<Vec<u8>>,
    runs: Option<(RleFormat, Vec<u8>)>,
) -> (update: Option<FrameUpdate>)
    ensures
        update_view(update) == rect@.update(
            bytes_view(planes),
            runs_view(runs),
        ),
{
    let rect_w: u16 = count_places(rect.left, rect.right);
    let rect_h: u16 = count_places(rect.top, rect.bottom);
    if rect_w == 0 || rect_h == 0 || rect.width == 0 || rect.height == 0 {
        return None;
    }
    let (w, h) = (rect.width, rect.height);
    let compressed = rect.compression_flags % 2 == 1;
    let rgba: Vec<u8> = if compressed && rect.bits_per_pixel == 32 {
        match planes {
            Some(pixels) => rgb24_to_rgba_flip(&pixels, w, h, rect_w, rect_h),
            None => return None,
        }
    } else if compressed && rect.bits_per_pixel == 16 {
        match runs {
            Some((RleFormat::Rgb16, pixels)) => rgb16_to_rgba_flip(&pixels, w, h, rect_w, rect_h),
            _ => return None,
        }
    } else if compressed && rect.bits_per_pixel == 24 {
        match runs {
            Some((RleFormat::Rgb24, pixels)) => bgr24_to_rgba_flip(&pixels, w, h, rect_w, rect_h),
            _ => return None,
        }
    } else if !compressed && rect.bits_per_pixel == 32 {
        bgrx_to_rgba_flip(&rect.data, w, h, rect_w, rect_h)
    } else if !compressed && rect.bits_per_pixel == 16 {
        rgb16_to_rgba_flip(&rect.data, w, h, rect_w, rect_h)
    } else {
        return None;
    };
    Some(FrameUpdate::Rect { x: rect.left, y: rect.top, width: rect_w, height: rect_h, rgba })
}

/// Decodes a bitmap, as far as its data are compressed, and makes the change that it stands for.
pub fn decode_rect(rect: &BitmapRect) -> (update: Option<FrameUpdate>)
    ensures
        update_view(update) == rect@.decoded(),
{
    if rect.width == 0 || rect.height == 0 {
        return None;
    }
    let compressed = rect.compression_flags % 2 == 1;
    let planes: Option<Vec<u8>> = if compressed && rect.bits_per_pixel == 32 {
        rdp6_decode(&rect.data, rect.width, rect.height)
    } else {
        None
    };
    let runs: Option<(RleFormat, Vec<u8>)> = if compressed && (rect.bits_per_pixel == 16
        || rect.bits_per_pixel == 24) {
        rle_decode(&rect.data, rect.width, rect.height, rect.bits_per_pixel)
    } else {
        None
    };
    rect_update(rect, planes, runs)
}

/// The changes that bitmaps stand for.
pub fn decode_rects(rects: &Vec<BitmapRect>) -> (updates: Vec<FrameUpdate>)
    ensures
        updates_view(updates@) == decoded_updates(tiles(rects@)),
{
    let mut updates: Vec<FrameUpdate> = Vec::new();
    let mut i: usize = 0;
    assert(updates_view(updates@) =~= decoded_updates(tiles(rects@).take(0)));
    while i < rects.len()
        invariant
            i <= rects.len(),
            updates_view(updates@) == decoded_updates(tiles(rects@).take(i as int)),
        decreases rects.len() - i,
    {
        let ghost before = updates@;
        let update = decode_rect(&rects[i]);
        assert(tiles(rects@).take(i + 1).drop_last() =~= tiles(rects@).take(i as int));
        assert(tiles(rects@).take(i + 1).last() == rects@[i as int]@);
        if let Some(u) = update {
            updates.push(u);
            assert(updates_view(updates@) =~= updates_view(before).push(u@));
        }
        i = i + 1;
    }
    assert(tiles(rects@).take(i as int) =~= tiles(rects@));
    updates
}

/// The changes that the bytes of an update stand for.
pub fn decode_update(raw: &Vec<u8>) -> (updates: Vec<FrameUpdate>)
    ensures
        updates_view(updates@) == raw_updates(raw@),
{
    if raw.len() >= 4 && raw[0] == 1 && raw[1] == 0 {
        if let Some(rects) = bitmap_rects(raw) {
            return decode_rects(&rects);
        }
    }
    let updates: Vec<FrameUpdate> = Vec::new();
    assert(updates_view(updates@) =~= Seq::empty());
    updates
}

/// The changes of the picture in a frame that the session could not process: those of a bitmap
/// update outside the fast path.
pub fn try_handle_slowpath_bitmap(frame: &[u8]) -> (updates: Vec<FrameUpdate>)
    ensures
        updates_view(updates@) == slowpath_updates(frame@),
{
    if let Some(data) = channel_data(frame) {
        if let Some(IoPdu::Data { detail: IoDetail::Update(raw), .. }) = channel_message(&data) {
            return decode_update(&raw);
        }
    }
    let updates: Vec<FrameUpdate> = Vec::new();
    assert(updates_view(updates@) =~= Seq::empty());
    updates
}

/// Whatever the decoders make of its data, a bitmap changes exactly the pixels of its rectangle:
/// the change carries four bytes for each.
pub proof fn changes_cover_their_rectangle(
    tile: Tile,
    planes: Option<Seq<u8>>,
    runs: Option<(RleFormat, Seq<u8>)>,
)
    ensures
        match tile.update(planes, runs) {
            Some(Update::Rect { x, y, width, height, rgba }) => {
                &&& x == tile.left
                &&& y == tile.top
                &&& rgba.len() == 4 * (height * width)
            },
            Some(Update::Full { .. }) => false,
            None => true,
        },
{
    let (w, h) = (tile.rect_w() as int, tile.rect_h() as int);
    assert(0 <= h * w) by (nonlinear_arith)
        requires
            0 <= h,
            0 <= w,
    ;
}

} // verus!
