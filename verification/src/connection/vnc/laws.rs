//! What holds of the VNC worker as a whole.
use crate::connection::types::{Input, KeyboardIndicators, RemoteInput};
use crate::connection::vnc::cursor::{blended, overlay, PointerState, Shape};
use crate::connection::vnc::framebuffer::{CursorRect, Picture};
use crate::connection::vnc::worker::{ServerEvent, Worker};
use crate::remote_display::display::Update;
use crate::remote_display::laws::written_rect_reads_back;
use crate::remote_display::pixels::cropped;
use vstd::prelude::*;

verus! {

/// A rectangle that lies on the picture can be read back once it is written.
pub proof fn picture_reads_back(p: Picture, r: CursorRect, rgba: Seq<u8>)
    requires
        p.wf(),
        r.width > 0,
        r.height > 0,
        r.x + r.width <= p.width,
        r.y + r.height <= p.height,
        rgba.len() == r.height * (4 * r.width),
    ensures
        cropped(p.written(r, rgba).rgba, p.area(r.x, r.y, r.width, r.height)) == rgba,
        p.written(r, rgba).wf(),
{
    let area = p.area(r.x, r.y, r.width, r.height);
    let bottom = r.y + r.height;
    let height = p.height as int;
    let stride = 4 * p.width;
    assert(bottom * stride <= height * stride) by (nonlinear_arith)
        requires
            bottom <= height,
            0 <= stride,
    ;
    written_rect_reads_back(p.rgba, area, rgba);
    assert(rgba.take(r.height * (4 * r.width)) =~= rgba);
}

/// The picture that the worker keeps never changes because the cursor moves or is drawn.
pub proof fn cursor_leaves_the_picture_alone(w: Worker, input: RemoteInput)
    ensures
        w.after_remote(input).picture == w.picture,
        w.with_overlay().picture == w.picture,
        w.promoted().picture == w.picture,
{
}

/// An opaque pixel of the cursor hides the picture, and a transparent one shows it.
pub proof fn opacity_decides(cursor: u8, under: u8)
    ensures
        blended(cursor, 255, under) == cursor,
        blended(cursor, 0, under) == under,
{
}

/// A blended channel lies between those that it is made from.
pub proof fn blend_lies_between(cursor: u8, alpha: u8, under: u8)
    ensures
        cursor <= under ==> cursor <= blended(cursor, alpha, under) <= under,
        under <= cursor ==> under <= blended(cursor, alpha, under) <= cursor,
{
    let c = cursor as int;
    let a = alpha as int;
    let u = under as int;
    let m = c * a + u * (255 - a);
    assert(c <= u ==> 255 * c <= m && m <= 255 * u) by (nonlinear_arith)
        requires
            0 <= a <= 255,
            m == c * a + u * (255 - a),
    ;
    assert(u <= c ==> 255 * u <= m && m <= 255 * c) by (nonlinear_arith)
        requires
            0 <= a <= 255,
            m == c * a + u * (255 - a),
    ;
}

/// The drawn cursor is opaque, and lies on the picture.
pub proof fn overlay_is_on_the_picture(p: Picture, s: Shape, pointer: PointerState)
    requires
        overlay(p, s, pointer) is Some,
    ensures
        overlay(p, s, pointer)->0 matches Update::Rect { x, y, width, height, rgba } && x + width
            <= p.width && y + height <= p.height && rgba.len() == height * (4 * width) && forall|
            k: int,
        |
            0 <= k < rgba.len() && k % 4 == 3 ==> #[trigger] rgba[k] == 255,
{
}

/// After the lock keys were synchronized, the server is thought to have them as the local side
/// does, and synchronizing again sends nothing.
pub proof fn lock_sync_settles(w: Worker, local: KeyboardIndicators)
    ensures
        w.after_input(Input::SyncKeyboardIndicators(local)).remote_locks() == local,
        w.after_input(Input::SyncKeyboardIndicators(local)).input_acts(
            Input::SyncKeyboardIndicators(local),
        ).len() == 0,
{
}

/// A change of resolution asks for the whole picture once the cursor's shape is known, and only
/// then.
pub proof fn new_resolution_asks_for_the_picture(
    w: Worker,
    width: u16,
    height: u16,
    rect: CursorRect,
    image: Seq<u8>,
)
    ensures
        ({
            let resized = w.served(ServerEvent::SetResolution { width, height });
            &&& resized.served(ServerEvent::SetCursor { rect, image }).sync_asked
            &&& !resized.served(ServerEvent::SetCursor { rect, image }).shape.needs_sync
        }),
{
}

/// A round that is promoted starts with the whole picture, and the streak starts anew.
pub proof fn promotion_sends_the_picture(w: Worker)
    requires
        w.promotes(),
    ensures
        w.promoted().pending.len() > 0,
        w.promoted().pending[0] == (Update::Full {
            width: w.picture.width,
            height: w.picture.height,
            rgba: w.picture.rgba,
        }),
        w.promoted().streak == 0,
{
}

/// Rounds of rectangles cannot go on for long without the whole picture: the streak stays below
/// its limit while there is a picture.
pub proof fn streak_stays_below_its_limit(w: Worker)
    requires
        w.streak < crate::connection::vnc::worker::RECT_ONLY_STREAK_LIMIT,
        w.picture.full_update() is Some,
    ensures
        w.promoted().streak < crate::connection::vnc::worker::RECT_ONLY_STREAK_LIMIT,
{
}

} // verus!
