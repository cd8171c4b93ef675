//! The state of a remote picture.
use crate::remote_display::pixels::{area_of, blit, blitted};
use crate::remote_display::renderer::DirtyRect;
use std::sync::Arc;
use vstd::prelude::*;

verus! {

/// With more changed rectangles than this, the whole picture is uploaded.
pub const FULL_UPLOAD_DIRTY_RECT_THRESHOLD: usize = 256;

/// Why a batch of rectangles is uploaded as a whole picture.
#[derive(Debug, Clone, Copy, PartialEq, Eq, Structural)]
pub enum FullUploadPromotionReason {
    Bootstrap,
    LargeRectBatch,
}

impl FullUploadPromotionReason {
    /// The name of the reason, for diagnostics.
    pub fn as_str(self) -> (s: &'static str)
        ensures
            s@ == (match self {
                FullUploadPromotionReason::Bootstrap => "bootstrap"@,
                FullUploadPromotionReason::LargeRectBatch => "large_rect_batch"@,
            }),
    {
        match self {
            FullUploadPromotionReason::Bootstrap => "bootstrap",
            FullUploadPromotionReason::LargeRectBatch => "large_rect_batch",
        }
    }
}

/// What a batch of updates held.
#[derive(Debug, Clone, Copy)]
pub struct FrameBatchStats {
    pub full_count: usize,
    pub rect_count: usize,
    pub forced_full_upload_reason: Option<FullUploadPromotionReason>,
}

impl Default for FrameBatchStats {
    fn default() -> (s: Self)
        ensures
            s.full_count == 0,
            s.rect_count == 0,
            s.forced_full_upload_reason is None,
    {
        FrameBatchStats { full_count: 0, rect_count: 0, forced_full_upload_reason: None }
    }
}

/// A change of the picture: all of it, or a rectangle.
#[derive(Debug, Clone)]
pub enum FrameUpdate {
    Full { width: u16, height: u16, rgba: Vec<u8> },
    Rect { x: u16, y: u16, width: u16, height: u16, rgba: Vec<u8> },
}

/// A change of the picture as a mathematical value.
#[verifier::ext_equal]
pub enum Update {
    Full { width: u16, height: u16, rgba: Seq<u8> },
    Rect { x: u16, y: u16, width: u16, height: u16, rgba: Seq<u8> },
}

impl View for FrameUpdate {
    type V = Update;

    open spec fn view(&self) -> Update {
        match *self {
            FrameUpdate::Full { width, height, rgba } => Update::Full { width, height, rgba: rgba@ },
            FrameUpdate::Rect { x, y, width, height, rgba } => Update::Rect {
                x,
                y,
                width,
                height,
                rgba: rgba@,
            },
        }
    }
}

/// Changes as mathematical values.
pub open spec fn updates_view(updates: Seq<FrameUpdate>) -> Seq<Update> {
    Seq::new(updates.len(), |i: int| updates[i]@)
}

/// A remote picture and what of it has not been uploaded yet.
#[derive(Debug, Clone)]
pub struct RemoteDisplayState {
    /// Tells pictures of different sessions apart.
    pub source_id: u64,
    pub width: u16,
    pub height: u16,
    pub rgba: Arc<Vec<u8>>,
    pub dirty_rects: Vec<DirtyRect>,
    pub full_upload: bool,
    pub frame_seq: u64,
    pub frame_ready: bool,
    pub status_message: Option<String>,
}

/// A remote picture as a mathematical value.
#[verifier::ext_equal]
pub struct Display {
    pub source_id: u64,
    pub width: u16,
    pub height: u16,
    pub rgba: Seq<u8>,
    pub dirty: Seq<DirtyRect>,
    pub full_upload: bool,
    pub frame_seq: u64,
    pub frame_ready: bool,
    pub status: Option<Seq<char>>,
}

/// Gives every picture a number of its own, as long as there are numbers left.
#[derive(Debug)]
pub struct SourceNumbers {
    pub next: u64,
}

impl View for SourceNumbers {
    type V = u64;

    open spec fn view(&self) -> u64 {
        self.next
    }
}

impl SourceNumbers {
    /// None are given yet.
    pub fn new() -> (numbers: Self)
        ensures
            numbers@ == 1,
    {
        SourceNumbers { next: 1 }
    }
}

/// The number that `n` pictures later is the next one.
pub open spec fn number_after(next: u64, n: nat) -> u64
    decreases n,
{
    if n == 0 {
        next
    } else {
        next_seq(number_after(next, (n - 1) as nat))
    }
}

/// The number after `n`, around the end of the range.
pub open spec fn next_seq(n: u64) -> u64 {
    if n == u64::MAX {
        0
    } else {
        (n + 1) as u64
    }
}

/// How much of `size` fits from `at` on below `limit`.
pub open spec fn clipped(at: u16, size: u16, limit: u16) -> u16 {
    if at >= limit {
        0
    } else if size < limit - at {
        size
    } else {
        (limit - at) as u16
    }
}

impl Display {
    /// The picture before the first update: transparent black, to be uploaded whole.
    pub open spec fn fresh(source_id: u64, width: u16, height: u16) -> Display {
        Display {
            source_id,
            width,
            height,
            rgba: Seq::new((width * height * 4) as nat, |i: int| 0u8),
            dirty: Seq::empty(),
            full_upload: true,
            frame_seq: 0,
            frame_ready: false,
            status: None,
        }
    }

    /// Whether the changed rectangles are on the picture and not too many.
    pub open spec fn wf(self) -> bool {
        &&& self.dirty.len() <= FULL_UPLOAD_DIRTY_RECT_THRESHOLD
        &&& forall|i: int|
            0 <= i < self.dirty.len() ==> (#[trigger] self.dirty[i]).x + self.dirty[i].width
                <= self.width && self.dirty[i].y + self.dirty[i].height <= self.height
    }

    /// The picture after one update. A full one replaces it. A rectangle is clipped to the
    /// picture and written over it; one that has nothing left, or too few pixels, is ignored.
    pub open spec fn applied(self, update: Update) -> Display {
        match update {
            Update::Full { width, height, rgba } => Display {
                width,
                height,
                rgba,
                dirty: Seq::empty(),
                full_upload: true,
                frame_seq: next_seq(self.frame_seq),
                frame_ready: true,
                ..self
            },
            Update::Rect { x, y, width, height, rgba } => {
                let w = clipped(x, width, self.width);
                let h = clipped(y, height, self.height);
                if w == 0 || h == 0 || rgba.len() < h * (4 * w) {
                    self
                } else {
                    let rect = DirtyRect {
                        x: x as u32,
                        y: y as u32,
                        width: w as u32,
                        height: h as u32,
                    };
                    let dirty = if self.full_upload {
                        seq![rect]
                    } else {
                        self.dirty.push(rect)
                    };
                    let many = dirty.len() > FULL_UPLOAD_DIRTY_RECT_THRESHOLD;
                    Display {
                        rgba: blitted(
                            self.rgba,
                            area_of(self.width as u32, x as u32, y as u32, w as u32, h as u32),
                            rgba,
                        ),
                        dirty: if many {
                            Seq::empty()
                        } else {
                            dirty
                        },
                        full_upload: many,
                        frame_seq: next_seq(self.frame_seq),
                        frame_ready: true,
                        ..self
                    }
                }
            },
        }
    }

    /// The picture after the first `n` updates of a list.
    pub open spec fn applied_all(self, updates: Seq<Update>, n: int) -> Display
        decreases n,
    {
        if n <= 0 {
            self
        } else {
            self.applied_all(updates, n - 1).applied(updates[n - 1])
        }
    }

    /// The picture at the start of a batch: rectangles that were uploaded one by one are done.
    pub open spec fn batch_start(self) -> Display {
        if self.full_upload {
            self
        } else {
            Display { dirty: Seq::empty(), ..self }
        }
    }

    /// The picture after a batch of updates.
    pub open spec fn batched(self, updates: Seq<Update>) -> Display {
        let after = self.batch_start().applied_all(updates, updates.len() as int);
        if promotion(self.frame_seq, updates) is Some {
            Display { dirty: Seq::empty(), full_upload: true, ..after }
        } else {
            after
        }
    }
}

/// How many of the first `n` updates are full ones.
pub open spec fn full_count(updates: Seq<Update>, n: int) -> nat
    decreases n,
{
    if n <= 0 {
        0
    } else {
        full_count(updates, n - 1) + (if updates[n - 1] is Full {
            1nat
        } else {
            0
        })
    }
}

/// Why a batch is uploaded whole, if it is: it holds rectangles only, and comes first, or holds
/// too many.
pub open spec fn promotion(frame_seq: u64, updates: Seq<Update>) -> Option<
    FullUploadPromotionReason,
> {
    let fulls = full_count(updates, updates.len() as int);
    let rects = updates.len() - fulls;
    if frame_seq == 0 && fulls == 0 && rects > 0 {
        Some(FullUploadPromotionReason::Bootstrap)
    } else if fulls == 0 && rects > FULL_UPLOAD_DIRTY_RECT_THRESHOLD {
        Some(FullUploadPromotionReason::LargeRectBatch)
    } else {
        None
    }
}

impl View for RemoteDisplayState {
    type V = Display;

    open spec fn view(&self) -> Display {
        Display {
            source_id: self.source_id,
            width: self.width,
            height: self.height,
            rgba: self.rgba@,
            dirty: self.dirty_rects@,
            full_upload: self.full_upload,
            frame_seq: self.frame_seq,
            frame_ready: self.frame_ready,
            status: match self.status_message {
                Some(s) => Some(s@),
                None => None,
            },
        }
    }
}

/// Calls `Arc::unwrap_or_clone`: the shared bytes, taken out where nothing else holds them and
/// copied otherwise.
#[verifier::external_body]
fn unshared(pixels: Arc<Vec<u8>>) -> (bytes: Vec<u8>)
    ensures
        bytes@ == pixels@,
{
    Arc::unwrap_or_clone(pixels)
}

/// The smaller of a size and the room that is left.
fn clip(at: u16, size: u16, limit: u16) -> (r: u16)
    ensures
        r == clipped(at, size, limit),
{
    let room: u16 = limit.saturating_sub(at);
    if size < room {
        size
    } else {
        room
    }
}

impl RemoteDisplayState {
    /// A picture that nothing has arrived for. It takes the next number.
    pub fn new(numbers: &mut SourceNumbers, width: u16, height: u16) -> (display:
        RemoteDisplayState)
        requires
            width * height * 4 <= usize::MAX,
        ensures
            display@ == Display::fresh(old(numbers)@, width, height),
            display@.wf(),
            final(numbers)@ == next_seq(old(numbers)@),
    {
        let source_id: u64 = numbers.next;
        numbers.next = source_id.wrapping_add(1);
        assert(width * height <= 65535 * 65535) by (nonlinear_arith)
            requires
                width <= 65535,
                height <= 65535,
        ;
        let len: usize = (width as u64 * height as u64 * 4) as usize;
        let display = RemoteDisplayState {
            source_id,
            width,
            height,
            rgba: Arc::new(vec![0u8; len]),
            dirty_rects: Vec::new(),
            full_upload: true,
            frame_seq: 0,
            frame_ready: false,
            status_message: None,
        };
        assert(display@ =~= Display::fresh(source_id, width, height));
        display
    }

    /// Takes in one update.
    pub fn apply(&mut self, update: FrameUpdate)
        requires
            old(self)@.wf(),
        ensures
            final(self)@ == old(self)@.applied(update@),
            final(self)@.wf(),
            final(self).status_message == old(self).status_message,
    {
        match update {
            FrameUpdate::Full { width, height, rgba } => {
                self.width = width;
                self.height = height;
                self.rgba = Arc::new(rgba);
                self.full_upload = true;
                self.dirty_rects.clear();
                self.frame_seq = self.frame_seq.wrapping_add(1);
                self.frame_ready = true;
            },
            FrameUpdate::Rect { x, y, width, height, rgba } => {
                let rect_w: u16 = clip(x, width, self.width);
                let rect_h: u16 = clip(y, height, self.height);
                if rect_w == 0 || rect_h == 0 {
                    return;
                }
                assert(rect_h * (4 * rect_w) <= 65535 * (4 * 65535)) by (nonlinear_arith)
                    requires
                        rect_w <= 65535,
                        rect_h <= 65535,
                ;
                if (rgba.len() as u64) < rect_h as u64 * (4 * rect_w as u64) {
                    return;
                }
                let mut shared: Arc<Vec<u8>> = Arc::new(Vec::new());
                std::mem::swap(&mut shared, &mut self.rgba);
                let mut pixels = unshared(shared);
                blit(
                    &mut pixels,
                    self.width as u32,
                    x as u32,
                    y as u32,
                    rect_w as u32,
                    rect_h as u32,
                    &rgba,
                );
                self.rgba = Arc::new(pixels);
                if self.full_upload {
                    self.full_upload = false;
                    self.dirty_rects.clear();
                }
                self.dirty_rects.push(
                    DirtyRect {
                        x: x as u32,
                        y: y as u32,
                        width: rect_w as u32,
                        height: rect_h as u32,
                    },
                );
                if self.dirty_rects.len() > FULL_UPLOAD_DIRTY_RECT_THRESHOLD {
                    self.full_upload = true;
                    self.dirty_rects.clear();
                }
                self.frame_seq = self.frame_seq.wrapping_add(1);
                self.frame_ready = true;
                assert(self@ =~= old(self)@.applied(update@));
            },
        }
    }

    /// Takes in the updates of one event, and says what they were.
    pub fn apply_batch(&mut self, updates: Vec<FrameUpdate>) -> (stats: FrameBatchStats)
        requires
            old(self)@.wf(),
        ensures
            final(self)@ == old(self)@.batched(updates_view(updates@)),
            final(self)@.wf(),
            stats.full_count == full_count(updates_view(updates@), updates@.len() as int),
            stats.full_count + stats.rect_count == updates@.len(),
            stats.forced_full_upload_reason == promotion(
                old(self)@.frame_seq,
                updates_view(updates@),
            ),
            final(self).status_message == old(self).status_message,
    {
        let frame_seq_before: u64 = self.frame_seq;
        let mut stats = FrameBatchStats::default();
        let ghost view = updates_view(updates@);
        if !self.full_upload {
            self.dirty_rects.clear();
        }
        let ghost start = self@;
        let total: usize = updates.len();
        for update in it: updates
            invariant
                it.seq() == updates@,
                total == updates.len(),
                view == updates_view(updates@),
                start.wf(),
                self@.wf(),
                self@ == start.applied_all(view, it.index() as int),
                stats.full_count == full_count(view, it.index() as int),
                stats.full_count + stats.rect_count == it.index(),
                stats.forced_full_upload_reason is None,
                self.status_message == old(self).status_message,
        {
            assert(update@ == view[it.index() as int]);
            match &update {
                FrameUpdate::Full { .. } => {
                    stats.full_count = stats.full_count + 1;
                },
                FrameUpdate::Rect { .. } => {
                    stats.rect_count = stats.rect_count + 1;
                },
            }
            self.apply(update);
        }
        let force_bootstrap: bool = frame_seq_before == 0 && stats.full_count == 0
            && stats.rect_count > 0;
        let force_large_batch: bool = stats.full_count == 0 && stats.rect_count
            > FULL_UPLOAD_DIRTY_RECT_THRESHOLD;
        stats.forced_full_upload_reason = if force_bootstrap {
            Some(FullUploadPromotionReason::Bootstrap)
        } else if force_large_batch {
            Some(FullUploadPromotionReason::LargeRectBatch)
        } else {
            None
        };
        if stats.forced_full_upload_reason.is_some() {
            self.full_upload = true;
            self.dirty_rects.clear();
        }
        stats
    }
}

} // verus!
