//! What the events of a VNC server and the inputs of the user come to.
use crate::connection::types::{Input, KeyboardIndicators, RemoteInput, RemoteMouseButton};
use crate::connection::vnc::cursor::{overlay, PointerState, Shape};
use crate::connection::vnc::framebuffer::{CursorRect, Picture};
use crate::connection::vnc::worker::{paste_acts, wheel_acts, Act, ServerEvent, Worker};
use crate::remote_display::display::Update;
use crate::remote_display::pixel_laws::{
    lemma_pixel_in, pixel_at, reading_a_rectangle, writing_a_rectangle,
};
use crate::remote_display::renderer::DirtyRect;
use crate::text::{lowered, mentions};
use crate::text_laws::words_are_found;
use vstd::prelude::*;

verus! {

/// Whether a rectangle with pixels lies on a picture.
pub open spec fn lies_on(p: Picture, r: CursorRect) -> bool {
    &&& r.width > 0
    &&& r.height > 0
    &&& r.x + r.width <= p.width
    &&& r.y + r.height <= p.height
}

/// Channel `c` of the pixel of a picture in column `x` of row `y`.
pub open spec fn shown(p: Picture, x: int, y: int, c: int) -> u8 {
    p.rgba[pixel_at(p.width as int, x, y, c)]
}

spec fn dirty(r: CursorRect) -> DirtyRect {
    DirtyRect { x: r.x as u32, y: r.y as u32, width: r.width as u32, height: r.height as u32 }
}

proof fn lemma_picture_len(p: Picture)
    requires
        p.wf(),
    ensures
        p.rgba.len() == 4 * (p.height * p.width),
{
    let (w, h) = (p.width as int, p.height as int);
    assert(h * (4 * w) == 4 * (h * w)) by (nonlinear_arith);
}

/// Whether `n` is the least of four numbers.
pub open spec fn is_least(n: int, a: int, b: int, c: int, d: int) -> bool {
    &&& n <= a && n <= b && n <= c && n <= d
    &&& n == a || n == b || n == c || n == d
}

/// A copy shows the pixels of its source at its destination, as they were before it, and leaves all
/// other pixels as they were. The first update that it gives is the destination with those pixels.
/// It is as wide and as high as the smaller of its rectangles, as far as both lie on the picture.
#[verifier::rlimit(40)]
pub proof fn copies_go_from_source_to_destination(
    w: Worker,
    dst: CursorRect,
    src: CursorRect,
    cols: int,
    rows: int,
    x: int,
    y: int,
    c: int,
)
    requires
        w.wf(),
        is_least(
            cols,
            dst.width as int,
            src.width as int,
            w.picture.width - dst.x,
            w.picture.width - src.x,
        ),
        is_least(
            rows,
            dst.height as int,
            src.height as int,
            w.picture.height - dst.y,
            w.picture.height - src.y,
        ),
        cols > 0,
        rows > 0,
        0 <= x < w.picture.width,
        0 <= y < w.picture.height,
        0 <= c < 4,
    ensures
        ({
            let after = w.served(ServerEvent::Copy { dst, src });
            let inside = dst.x <= x < dst.x + cols && dst.y <= y < dst.y + rows;
            let n = w.pending.len() as int;
            &&& inside ==> shown(after.picture, x, y, c) == shown(
                w.picture,
                x - dst.x + src.x,
                y - dst.y + src.y,
                c,
            )
            &&& !inside ==> shown(after.picture, x, y, c) == shown(w.picture, x, y, c)
            &&& after.picture.width == w.picture.width && after.picture.height == w.picture.height
            &&& after.pending.len() > n
            &&& after.pending.take(n) == w.pending
            &&& after.pending[n] matches Update::Rect { x: ux, y: uy, width, height, rgba }
                && ux == dst.x && uy == dst.y && width == cols && height == rows && rgba.len() == 4
                * (rows * cols) && (inside ==> rgba[pixel_at(cols, x - dst.x, y - dst.y, c)]
                == shown(w.picture, x - dst.x + src.x, y - dst.y + src.y, c))
        }),
{
    let p = w.picture;
    let after = w.served(ServerEvent::Copy { dst, src });
    let n = w.pending.len() as int;
    lemma_picture_len(p);
    let from = CursorRect { x: src.x, y: src.y, width: cols as u16, height: rows as u16 };
    let to = CursorRect { x: dst.x, y: dst.y, width: cols as u16, height: rows as u16 };
    let read = crate::remote_display::pixels::cropped(
        p.rgba,
        p.area(from.x, from.y, from.width, from.height),
    );
    reading_a_rectangle(
        p.rgba,
        p.width as u32,
        p.height as int,
        dirty(from),
        x - dst.x,
        y - dst.y,
        c,
    );
    writing_a_rectangle(p.rgba, p.width as u32, p.height as int, dirty(to), read, x, y, c);
    assert(after.pending.take(n) =~= w.pending);
}

/// A copy of which nothing lies on the picture changes nothing.
pub proof fn copies_off_the_picture_do_nothing(w: Worker, dst: CursorRect, src: CursorRect)
    requires
        dst.width == 0 || src.width == 0 || dst.height == 0 || src.height == 0 || dst.x
            >= w.picture.width || src.x >= w.picture.width || dst.y >= w.picture.height || src.y
            >= w.picture.height,
    ensures
        w.served(ServerEvent::Copy { dst, src }) == w,
{
    assert(w.pending + Seq::<Update>::empty() =~= w.pending);
}

/// A raw image with all its pixels shows them at its rectangle, and leaves all other pixels as they
/// were. It is passed on as it came. One that brings too few pixels changes nothing.
#[verifier::rlimit(40)]
pub proof fn raw_images_show_at_their_place(
    w: Worker,
    rect: CursorRect,
    data: Seq<u8>,
    x: int,
    y: int,
    c: int,
)
    requires
        w.wf(),
        lies_on(w.picture, rect),
        0 <= x < w.picture.width,
        0 <= y < w.picture.height,
        0 <= c < 4,
    ensures
        ({
            let after = w.served(ServerEvent::RawImage { rect, data });
            let inside = rect.x <= x < rect.x + rect.width && rect.y <= y < rect.y + rect.height;
            let n = w.pending.len() as int;
            let complete = data.len() >= 4 * (rect.height * rect.width);
            &&& complete && inside ==> shown(after.picture, x, y, c) == data[pixel_at(
                rect.width as int,
                x - rect.x,
                y - rect.y,
                c,
            )]
            &&& complete && !inside ==> shown(after.picture, x, y, c) == shown(w.picture, x, y, c)
            &&& complete ==> after.pending.len() > n && after.pending.take(n) == w.pending
                && after.pending[n] == (Update::Rect {
                x: rect.x,
                y: rect.y,
                width: rect.width,
                height: rect.height,
                rgba: data.take(4 * (rect.height * rect.width)),
            })
            &&& after.picture.width == w.picture.width && after.picture.height == w.picture.height
            &&& !complete ==> after.picture == w.picture && after.pending == w.pending
        }),
{
    let p = w.picture;
    let after = w.served(ServerEvent::RawImage { rect, data });
    let n = w.pending.len() as int;
    lemma_picture_len(p);
    let (rw, rh) = (rect.width as int, rect.height as int);
    assert(rh * (4 * rw) == 4 * (rh * rw)) by (nonlinear_arith);
    assert(0 <= rh * rw) by (nonlinear_arith)
        requires
            0 <= rh,
            0 <= rw,
    ;
    let complete = data.len() >= 4 * (rect.height * rect.width);
    if complete {
        let rgba = data.take(rh * (4 * rw));
        writing_a_rectangle(p.rgba, p.width as u32, p.height as int, dirty(rect), rgba, x, y, c);
        if rect.x <= x < rect.x + rect.width && rect.y <= y < rect.y + rect.height {
            lemma_pixel_in(rw, rh, x - rect.x, y - rect.y, c);
        }
        assert(after.pending.take(n) =~= w.pending);
    } else {
        assert(after.pending =~= w.pending);
    }
}

/// A new resolution gives an empty picture of that size, which is passed on whole, and nothing of
/// the cursor is drawn on it yet.
pub proof fn resolutions_give_an_empty_picture(w: Worker, width: u16, height: u16)
    ensures
        ({
            let after = w.served(ServerEvent::SetResolution { width, height });
            &&& after.picture.width == width && after.picture.height == height
            &&& after.picture.rgba.len() == 4 * (height * width)
            &&& forall|i: int| 0 <= i < after.picture.rgba.len() ==> after.picture.rgba[i] == 0
            &&& after.pending == w.pending.push(
                Update::Full { width, height, rgba: after.picture.rgba },
            )
            &&& after.shape.last_rect is None && after.shape.needs_sync
            &&& after.shape.rgba == w.shape.rgba
            &&& after.pointer == w.pointer && after.sync_asked == w.sync_asked
        }),
{
    let after = w.served(ServerEvent::SetResolution { width, height });
    let (x, y) = (width as int, height as int);
    assert(y * (4 * x) == 4 * (y * x)) by (nonlinear_arith);
    assert(0 <= y * x) by (nonlinear_arith)
        requires
            0 <= y,
            0 <= x,
    ;
    assert(after.pending =~= w.pending.push(
        Update::Full { width, height, rgba: after.picture.rgba },
    ));
}

/// A new cursor keeps the picture, and has the hot spot, the size and the pixels that came. The
/// whole picture is asked for where that was waited for.
#[verifier::rlimit(40)]
pub proof fn cursors_are_taken_over(w: Worker, rect: CursorRect, image: Seq<u8>)
    ensures
        ({
            let after = w.served(ServerEvent::SetCursor { rect, image });
            &&& after.picture == w.picture
            &&& after.shape.hot_x == rect.x && after.shape.hot_y == rect.y
            &&& after.shape.width == rect.width && after.shape.height == rect.height
            &&& after.shape.rgba == image
            &&& !after.shape.needs_sync
            &&& after.sync_asked == (w.sync_asked || w.shape.needs_sync)
            &&& w.shape.last_rect is None ==> {
                let drawn = overlay(w.picture, after.shape, w.pointer);
                &&& drawn is Some ==> after.pending == w.pending.push(drawn->0)
                &&& drawn is None ==> after.pending == w.pending
            }
        }),
{
    let after = w.served(ServerEvent::SetCursor { rect, image });
    if w.shape.last_rect is None {
        match overlay(w.picture, after.shape, w.pointer) {
            Some(u) => {
                let fresh = w.with_cursor(rect, image).shape;
                let v = overlay(w.picture, fresh, w.pointer)->0;
                assert(u->Rect_rgba =~= v->Rect_rgba);
                assert(u == v);
                assert(after.pending =~= w.pending.push(u));
            },
            None => {
                assert(after.pending =~= w.pending);
            },
        }
    }
}

/// The cursor is drawn with its hot spot at the pointer. Each channel of a pixel is the mean of the
/// cursor's and the picture's, weighed by the cursor's opacity and rounded to the nearest number;
/// the pixel itself is opaque.
#[verifier::rlimit(40)]
pub proof fn cursors_are_drawn_at_the_pointer(
    p: Picture,
    s: Shape,
    pointer: PointerState,
    x: int,
    y: int,
    c: int,
)
    requires
        p.wf(),
        s.rgba.len() >= 4 * (s.height * s.width),
        0 <= x < p.width,
        0 <= y < p.height,
        0 <= x - (pointer.x - s.hot_x) < s.width,
        0 <= y - (pointer.y - s.hot_y) < s.height,
        0 <= c < 3,
    ensures
        ({
            let cx = x - (pointer.x - s.hot_x);
            let cy = y - (pointer.y - s.hot_y);
            let over = s.rgba[pixel_at(s.width as int, cx, cy, c)] as int;
            let alpha = s.rgba[pixel_at(s.width as int, cx, cy, 3)] as int;
            let under = shown(p, x, y, c) as int;
            let drawn = overlay(p, s, pointer)->0;
            let (ux, uy) = (drawn->Rect_x, drawn->Rect_y);
            let (uw, uh) = (drawn->Rect_width, drawn->Rect_height);
            let seen = drawn->Rect_rgba[pixel_at(uw as int, x - ux, y - uy, c)] as int;
            &&& overlay(p, s, pointer) is Some
            &&& drawn is Rect
            &&& ux <= x < ux + uw && uy <= y < uy + uh
            &&& drawn->Rect_rgba.len() == 4 * (uh * uw)
            &&& -255 <= 2 * (255 * seen - (over * alpha + under * (255 - alpha))) <= 255
            &&& drawn->Rect_rgba[pixel_at(uw as int, x - ux, y - uy, 3)] == 255
        }),
{
    let left = pointer.x - s.hot_x;
    let top = pointer.y - s.hot_y;
    let (cx, cy) = (x - left, y - top);
    let (sw, sh) = (s.width as int, s.height as int);
    let over = s.rgba[pixel_at(sw, cx, cy, c)] as int;
    let alpha = s.rgba[pixel_at(sw, cx, cy, 3)] as int;
    let under = shown(p, x, y, c) as int;
    let mean = over * alpha + under * (255 - alpha);
    assert(sh * (4 * sw) == 4 * (sh * sw)) by (nonlinear_arith);
    assert(0 <= mean <= 255 * 255) by (nonlinear_arith)
        requires
            mean == over * alpha + under * (255 - alpha),
            0 <= over <= 255,
            0 <= under <= 255,
            0 <= alpha <= 255,
    ;
    lemma_pixel_in(sw, sh, cx, cy, c);
    lemma_pixel_in(sw, sh, cx, cy, 3);
    lemma_pixel_in(p.width as int, p.height as int, x, y, c);
    assert(s.has_shape());
    let r = s.rect_on(p, pointer)->0;
    assert(s.rect_on(p, pointer) is Some);
    let (rx, ry) = (x - r.x, y - r.y);
    let (rw, rh) = (r.width as int, r.height as int);
    assert(rh * (4 * rw) == 4 * (rh * rw)) by (nonlinear_arith);
    let k = pixel_at(rw, rx, ry, c);
    let k3 = pixel_at(rw, rx, ry, 3);
    lemma_pixel_in(rw, rh, rx, ry, c);
    lemma_pixel_in(rw, rh, rx, ry, 3);
    assert(k / 4 == ry * rw + rx && k % 4 == c);
    assert(k3 / 4 == ry * rw + rx && k3 % 4 == 3);
    vstd::arithmetic::div_mod::lemma_fundamental_div_mod_converse(ry * rw + rx, rw, ry, rx);
    let drawn = ((2 * mean + 255) / 510) as u8;
    let rgba = overlay(p, s, pointer)->0->Rect_rgba;
    assert(rgba[k] == drawn) by {
        let pw = p.width as int;
        assert(y * (4 * pw) + 4 * x + c == pixel_at(pw, x, y, c));
        assert(cy * (4 * sw) + 4 * cx + c == pixel_at(sw, cx, cy, c));
        assert(cy * (4 * sw) + 4 * cx + 3 == pixel_at(sw, cx, cy, 3));
    }
}

/// Of a cursor that lies on the picture in part, that part is drawn. One that lies off the picture,
/// or has too few pixels, is not drawn.
pub proof fn cursors_are_cut_at_the_edges(p: Picture, s: Shape, pointer: PointerState)
    ensures
        ({
            let left = pointer.x - s.hot_x;
            let top = pointer.y - s.hot_y;
            let off = left + s.width <= 0 || top + s.height <= 0 || left >= p.width || top
                >= p.height || p.width == 0 || p.height == 0;
            let whole = s.width > 0 && s.height > 0 && s.rgba.len() >= 4 * (s.height * s.width);
            &&& off || !whole ==> overlay(p, s, pointer) is None
            &&& !off && whole ==> {
                let drawn = overlay(p, s, pointer)->0;
                let (x, y) = (drawn->Rect_x as int, drawn->Rect_y as int);
                let (right, bottom) = (x + drawn->Rect_width, y + drawn->Rect_height);
                &&& overlay(p, s, pointer) is Some
                &&& drawn is Rect
                &&& left >= 0 ==> x == left
                &&& left < 0 ==> x == 0
                &&& top >= 0 ==> y == top
                &&& top < 0 ==> y == 0
                &&& left + s.width <= p.width ==> right == left + s.width
                &&& left + s.width > p.width ==> right == p.width
                &&& top + s.height <= p.height ==> bottom == top + s.height
                &&& top + s.height > p.height ==> bottom == p.height
            }
        }),
{
    let (sw, sh) = (s.width as int, s.height as int);
    assert(sh * (4 * sw) == 4 * (sh * sw)) by (nonlinear_arith);
}

/// The mouse is reported where it moves to, with the buttons that are down. The picture and the keys
/// stay.
pub proof fn moves_are_reported(w: Worker, x: u16, y: u16)
    ensures
        ({
            let input = Input::RemoteInput(RemoteInput::MouseMove { x, y });
            let after = w.after_input(input);
            &&& w.input_acts(input).len() > 0
            &&& w.input_acts(input)[0] == (Act::Pointer { x, y, buttons: w.pointer.buttons })
            &&& after.pointer == (PointerState { x, y, buttons: w.pointer.buttons })
            &&& after.picture == w.picture && after.keys == w.keys && after.locks == w.locks
        }),
{
}

/// A button that goes down or up changes its own bit and no other: bit 0 for the left button, bit 1
/// for the middle one and bit 2 for the right one. It is reported where the mouse is.
#[verifier::rlimit(40)]
pub proof fn buttons_are_reported(w: Worker, button: RemoteMouseButton, down: bool)
    ensures
        ({
            let input = Input::RemoteInput(RemoteInput::MouseButton { button, down });
            let before = w.pointer.buttons;
            let after = w.after_input(input).pointer.buttons;
            let bit = |b: u8, n: u8| b & (1u8 << n) != 0;
            &&& bit(after, 0) == (if button is Left {
                down
            } else {
                bit(before, 0)
            })
            &&& bit(after, 1) == (if button is Middle {
                down
            } else {
                bit(before, 1)
            })
            &&& bit(after, 2) == (if button is Right {
                down
            } else {
                bit(before, 2)
            })
            &&& after & 0xf8 == before & 0xf8
            &&& w.after_input(input).pointer.x == w.pointer.x
            &&& w.after_input(input).pointer.y == w.pointer.y
            &&& w.input_acts(input) == seq![
                Act::Pointer { x: w.pointer.x, y: w.pointer.y, buttons: after },
            ]
        }),
{
    let before = w.pointer.buttons;
    assert(1u8 << 0u8 == 1 && 1u8 << 1u8 == 2 && 1u8 << 2u8 == 4) by (bit_vector);
    assert(forall|b: u8|
        #![trigger b | 1]
        (b | 1) & 1 != 0 && (b | 1) & 2 == b & 2 && (b | 1) & 4 == b & 4 && (b | 1) & 0xf8 == b
            & 0xf8) by (bit_vector);
    assert(forall|b: u8|
        #![trigger b | 2]
        (b | 2) & 2 != 0 && (b | 2) & 1 == b & 1 && (b | 2) & 4 == b & 4 && (b | 2) & 0xf8 == b
            & 0xf8) by (bit_vector);
    assert(forall|b: u8|
        #![trigger b | 4]
        (b | 4) & 4 != 0 && (b | 4) & 1 == b & 1 && (b | 4) & 2 == b & 2 && (b | 4) & 0xf8 == b
            & 0xf8) by (bit_vector);
    assert(forall|b: u8|
        #![trigger b & !1]
        (b & !1) & 1 == 0 && (b & !1) & 2 == b & 2 && (b & !1) & 4 == b & 4 && (b & !1) & 0xf8 == b
            & 0xf8) by (bit_vector);
    assert(forall|b: u8|
        #![trigger b & !2]
        (b & !2) & 2 == 0 && (b & !2) & 1 == b & 1 && (b & !2) & 4 == b & 4 && (b & !2) & 0xf8 == b
            & 0xf8) by (bit_vector);
    assert(forall|b: u8|
        #![trigger b & !4]
        (b & !4) & 4 == 0 && (b & !4) & 1 == b & 1 && (b & !4) & 2 == b & 2 && (b & !4) & 0xf8 == b
            & 0xf8) by (bit_vector);
    assert(before | 1 == before | 1 && before | 2 == before | 2 && before | 4 == before | 4);
    assert(before & !1 == before & !1 && before & !2 == before & !2 && before & !4 == before & !4);
}

proof fn lemma_wheel(pointer: PointerState, bit: u8, n: int, i: int)
    requires
        0 <= i < n,
    ensures
        wheel_acts(pointer, bit, n).len() == 2 * n,
        wheel_acts(pointer, bit, n)[2 * i] == (Act::Pointer {
            x: pointer.x,
            y: pointer.y,
            buttons: pointer.buttons | bit,
        }),
        wheel_acts(pointer, bit, n)[2 * i + 1] == (Act::Pointer {
            x: pointer.x,
            y: pointer.y,
            buttons: pointer.buttons,
        }),
    decreases n,
{
    if i < n - 1 {
        lemma_wheel(pointer, bit, n - 1, i);
    } else if n > 1 {
        lemma_wheel(pointer, bit, n - 1, 0);
    } else {
        assert(wheel_acts(pointer, bit, 0).len() == 0);
    }
}

/// A turn of a wheel presses its button and lets it go once for each 120 units that were begun, at
/// least once and at most eight times: button 4 up, 5 down, 6 and 7 sideways. The other buttons stay
/// as they are.
#[verifier::rlimit(40)]
pub proof fn wheels_press_their_buttons(w: Worker, delta: i16, sideways: bool, i: int)
    requires
        i >= 0,
    ensures
        ({
            let input = Input::RemoteInput(
                if sideways {
                    RemoteInput::MouseHorizontalWheel { delta }
                } else {
                    RemoteInput::MouseWheel { delta }
                },
            );
            let acts = w.input_acts(input);
            let turned = if delta < 0 {
                -delta
            } else {
                delta as int
            };
            let n = acts.len() / 2;
            let bit: u8 = match (sideways, delta > 0) {
                (false, true) => 0x08,
                (false, false) => 0x10,
                (true, true) => 0x20,
                (true, false) => 0x40,
            };
            &&& acts.len() == 2 * n
            &&& 1 <= n <= 8
            &&& turned == 0 ==> n == 1
            &&& 0 < turned <= 960 ==> 120 * (n - 1) < turned <= 120 * n
            &&& turned > 960 ==> n == 8
            &&& i < n ==> {
                &&& acts[2 * i] == (Act::Pointer {
                    x: w.pointer.x,
                    y: w.pointer.y,
                    buttons: w.pointer.buttons | bit,
                })
                &&& acts[2 * i + 1] == (Act::Pointer {
                    x: w.pointer.x,
                    y: w.pointer.y,
                    buttons: w.pointer.buttons,
                })
            }
            &&& w.after_input(input) == w
        }),
{
    let n = crate::connection::vnc::worker::steps(delta);
    let bit: u8 = match (sideways, delta > 0) {
        (false, true) => 0x08,
        (false, false) => 0x10,
        (true, true) => 0x20,
        (true, false) => 0x40,
    };
    lemma_wheel(w.pointer, bit, n, 0);
    if i < n {
        lemma_wheel(w.pointer, bit, n, i);
    }
}

/// A character is typed by its number, and a pasted text character by character, each down and up.
pub proof fn text_is_typed(w: Worker, codepoint: u16, down: bool, text: Seq<char>, i: int)
    requires
        0 <= i < text.len(),
        forall|k: int| 0 <= k < text.len() ==> #[trigger] text[k] != '\0',
    ensures
        w.input_acts(Input::RemoteInput(RemoteInput::KeyboardUnicode { codepoint, down })) == seq![
            Act::Key { keysym: codepoint as u32, down },
        ],
        paste_acts(text).len() == 2 * text.len(),
        paste_acts(text)[2 * i] == (Act::Key { keysym: text[i] as u32, down: true }),
        paste_acts(text)[2 * i + 1] == (Act::Key { keysym: text[i] as u32, down: false }),
{
    lemma_paste(text, i);
}

proof fn lemma_paste(text: Seq<char>, i: int)
    requires
        0 <= i < text.len(),
        forall|k: int| 0 <= k < text.len() ==> #[trigger] text[k] != '\0',
    ensures
        paste_acts(text).len() == 2 * text.len(),
        paste_acts(text)[2 * i] == (Act::Key { keysym: text[i] as u32, down: true }),
        paste_acts(text)[2 * i + 1] == (Act::Key { keysym: text[i] as u32, down: false }),
    decreases text.len(),
{
    assert(text.last() == text[text.len() - 1]);
    assert forall|k: int| 0 <= k < text.drop_last().len() implies #[trigger] text.drop_last()[k]
        != '\0' by {
        assert(text.drop_last()[k] == text[k]);
    }
    if i < text.len() - 1 {
        lemma_paste(text.drop_last(), i);
    } else if text.len() > 1 {
        lemma_paste(text.drop_last(), 0);
    } else {
        assert(paste_acts(text.drop_last()).len() == 0);
    }
}

/// Synchronizing the lock keys strikes each that differs between the two sides, and no other.
#[verifier::rlimit(40)]
pub proof fn differing_locks_are_struck(w: Worker, local: KeyboardIndicators)
    ensures
        ({
            let input = Input::SyncKeyboardIndicators(local);
            let acts = w.input_acts(input);
            let off = KeyboardIndicators { scroll_lock: false, num_lock: false, caps_lock: false };
            let remote = if w.locks is Some {
                w.locks->0
            } else {
                off
            };
            let strikes = |keysym: u32|
                {
                    &&& acts.contains(Act::Key { keysym, down: true })
                    &&& acts.contains(Act::Key { keysym, down: false })
                };
            &&& strikes(0xffe5) == (remote.caps_lock != local.caps_lock)
            &&& strikes(0xff7f) == (remote.num_lock != local.num_lock)
            &&& strikes(0xff14) == (remote.scroll_lock != local.scroll_lock)
            &&& acts.len() == (if remote.caps_lock != local.caps_lock {
                2int
            } else {
                0
            }) + (if remote.num_lock != local.num_lock {
                2int
            } else {
                0
            }) + (if remote.scroll_lock != local.scroll_lock {
                2int
            } else {
                0
            })
            &&& forall|i: int|
                0 <= i < acts.len() ==> #[trigger] acts[i] is Key && acts[i]->Key_down == (i % 2
                    == 0)
        }),
{
    let acts = w.input_acts(Input::SyncKeyboardIndicators(local));
    let keys = seq![0xffe5u32, 0xff7fu32, 0xff14u32];
    let off = KeyboardIndicators { scroll_lock: false, num_lock: false, caps_lock: false };
    let remote = if w.locks is Some {
        w.locks->0
    } else {
        off
    };
    let caps = remote.caps_lock != local.caps_lock;
    let num = remote.num_lock != local.num_lock;
    let scroll = remote.scroll_lock != local.scroll_lock;
    let c: int = if caps {
        2
    } else {
        0
    };
    let n: int = if num {
        2
    } else {
        0
    };
    if caps {
        assert(acts[0] == (Act::Key { keysym: 0xffe5, down: true }));
        assert(acts[1] == (Act::Key { keysym: 0xffe5, down: false }));
    }
    if num {
        assert(acts[c] == (Act::Key { keysym: 0xff7f, down: true }));
        assert(acts[c + 1] == (Act::Key { keysym: 0xff7f, down: false }));
    }
    if scroll {
        assert(acts[c + n] == (Act::Key { keysym: 0xff14, down: true }));
        assert(acts[c + n + 1] == (Act::Key { keysym: 0xff14, down: false }));
    }
}

/// Releasing the modifiers sends the release of both of shift, control, alt and super, and nothing
/// else. A resize asks for the whole picture.
pub proof fn modifiers_are_released(w: Worker, cols: u16, rows: u16, keysym: u32, down: bool)
    ensures
        ({
            let acts = w.input_acts(Input::ReleaseAllModifiers);
            let modifier = keysym == 0xffe1 || keysym == 0xffe2 || keysym == 0xffe3 || keysym
                == 0xffe4 || (0xffe9 <= keysym <= 0xffec);
            &&& acts.len() == 8
            &&& acts.contains(Act::Key { keysym, down }) == (modifier && !down)
        }),
        w.input_acts(Input::Resize { cols, rows }) == seq![
            Act::FullRefresh { restarts_timer: false },
        ],
{
    let acts = w.input_acts(Input::ReleaseAllModifiers);
    assert(acts[0] == (Act::Key { keysym: 0xffe1, down: false }));
    assert(acts[1] == (Act::Key { keysym: 0xffe2, down: false }));
    assert(acts[2] == (Act::Key { keysym: 0xffe3, down: false }));
    assert(acts[3] == (Act::Key { keysym: 0xffe4, down: false }));
    assert(acts[4] == (Act::Key { keysym: 0xffe9, down: false }));
    assert(acts[5] == (Act::Key { keysym: 0xffea, down: false }));
    assert(acts[6] == (Act::Key { keysym: 0xffeb, down: false }));
    assert(acts[7] == (Act::Key { keysym: 0xffec, down: false }));
}

/// A failure that the server reports ends the session, a text from it is shown, and neither changes
/// the picture.
pub proof fn reports_leave_the_picture(w: Worker, text: Seq<char>)
    ensures
        Worker::event_acts(ServerEvent::Error(text)).len() == 1,
        Worker::event_acts(ServerEvent::Error(text))[0] is Fail,
        text.is_suffix_of(Worker::event_acts(ServerEvent::Error(text))[0]->Fail_0),
        Worker::event_acts(ServerEvent::Text(text)).len() == 1,
        Worker::event_acts(ServerEvent::Text(text))[0] is Message,
        Worker::event_acts(ServerEvent::Other).len() == 0,
        w.served(ServerEvent::Error(text)) == w,
        w.served(ServerEvent::Text(text)) == w,
        w.served(ServerEvent::Other) == w,
{
    assert(w.pending + Seq::<Update>::empty() =~= w.pending);
    let shown = Worker::event_acts(ServerEvent::Error(text))[0]->Fail_0;
    assert(shown.skip(shown.len() - text.len()) =~= text);
}

/// The updates of a round are passed on as they came, unless all of them are rectangles and they are
/// 64 or more, or it is the sixth such round in a row: then the whole picture comes in their place.
pub proof fn rounds_are_passed_on(w: Worker)
    requires
        w.pending.len() > 0,
        w.picture.width > 0,
        w.picture.height > 0,
        forall|i: int| 0 <= i < w.pending.len() ==> #[trigger] w.pending[i] is Rect,
    ensures
        w.round_acts().len() >= 1,
        w.round_acts()[0] is Frames,
        ({
            let frames = w.round_acts()[0]->Frames_0;
            let many = w.pending.len() >= 64 || w.streak >= 5;
            &&& !many ==> frames == w.pending && w.promoted().streak == w.streak + 1
            &&& many ==> frames.len() >= 1 && w.promoted().streak == 0 && frames[0]
                == (Update::Full {
                width: w.picture.width,
                height: w.picture.height,
                rgba: w.picture.rgba,
            })
        }),
        w.sync_asked ==> w.round_acts().len() == 2 && w.round_acts()[1] == (Act::FullRefresh {
            restarts_timer: true,
        }),
        !w.sync_asked ==> w.round_acts().len() == 1,
{
    lemma_all_rects(w.pending, w.pending.len() as int);
}

proof fn lemma_all_rects(updates: Seq<Update>, n: int)
    requires
        0 <= n <= updates.len(),
        forall|i: int| 0 <= i < updates.len() ==> #[trigger] updates[i] is Rect,
    ensures
        crate::remote_display::display::full_count(updates, n) == 0,
    decreases n,
{
    if n > 0 {
        lemma_all_rects(updates, n - 1);
        assert(updates[n - 1] is Rect);
    }
}

/// A move that takes the cursor to another place of the picture shows first what the cursor covered,
/// and then the cursor. A move that leaves it where it is drawn shows nothing.
#[verifier::rlimit(40)]
pub proof fn moves_redraw_the_cursor(
    w: Worker,
    x: u16,
    y: u16,
    covered: CursorRect,
    cx: int,
    cy: int,
    c: int,
)
    requires
        w.wf(),
        w.shape.last_rect == Some(covered),
        lies_on(w.picture, covered),
        0 <= cx < covered.width,
        0 <= cy < covered.height,
        0 <= c < 4,
    ensures
        ({
            let input = Input::RemoteInput(RemoteInput::MouseMove { x, y });
            let acts = w.input_acts(input);
            let pointer = PointerState { x, y, buttons: w.pointer.buttons };
            let drawn = overlay(w.picture, w.shape, pointer);
            let stays = drawn matches Some(Update::Rect { x: dx, y: dy, width, height, rgba })
                && dx == covered.x && dy == covered.y && width == covered.width && height
                == covered.height;
            &&& stays ==> acts.len() == 1
            &&& drawn matches Some(Update::Rect { x: dx, y: dy, width, height, rgba })
                ==> w.after_input(input).shape.last_rect == Some(
                CursorRect { x: dx, y: dy, width, height },
            )
            &&& !stays ==> {
                let updates = acts[1]->Frames_0;
                let restored = updates[0];
                &&& acts.len() == 2 && acts[1] is Frames
                &&& updates.len() >= 1
                &&& restored is Rect
                &&& restored->Rect_x == covered.x && restored->Rect_y == covered.y
                &&& restored->Rect_width == covered.width && restored->Rect_height
                    == covered.height
                &&& restored->Rect_rgba[pixel_at(covered.width as int, cx, cy, c)] == shown(
                    w.picture,
                    covered.x + cx,
                    covered.y + cy,
                    c,
                )
                &&& drawn is Some ==> updates == seq![restored, drawn->0]
                &&& drawn is None ==> updates == seq![restored]
            }
        }),
{
    let p = w.picture;
    lemma_picture_len(p);
    reading_a_rectangle(p.rgba, p.width as u32, p.height as int, dirty(covered), cx, cy, c);
    lemma_pixel_in(
        p.width as int,
        p.height as int,
        covered.x + covered.width - 1,
        covered.y + covered.height - 1,
        3,
    );
    let input = Input::RemoteInput(RemoteInput::MouseMove { x, y });
    let pointer = PointerState { x, y, buttons: w.pointer.buttons };
    let area = p.area(covered.x, covered.y, covered.width, covered.height);
    assert(area.row_start(covered.height - 1) + 4 * covered.width <= p.rgba.len());
    let moved = Worker { pointer, ..w };
    let drawn = overlay(p, w.shape, pointer);
    let acts = w.input_acts(input);
    if moved.shape.last_rect != moved.shape.rect_on(p, pointer) {
        let updates = moved.uncovered() + moved.overlay();
        assert(acts[1] == Act::Frames(updates));
        if drawn is Some {
            assert(updates =~= seq![updates[0], drawn->0]);
        } else {
            assert(updates =~= seq![updates[0]]);
        }
    }
}

/// Where the cursor shows on the picture, it is drawn again over what an image or a copy has changed.
pub proof fn changes_are_followed_by_the_cursor(w: Worker, rect: CursorRect, data: Seq<u8>)
    requires
        data.len() >= 4 * (rect.height * rect.width),
    ensures
        ({
            let after = w.served(ServerEvent::RawImage { rect, data });
            let drawn = overlay(after.picture, w.shape, w.pointer);
            let n = w.pending.len();
            &&& drawn is Some ==> after.pending.len() == n + 2 && after.pending[(n + 1) as int]
                == drawn->0
            &&& drawn is None ==> after.pending.len() == n + 1 && after.shape.last_rect
                == w.shape.last_rect
            &&& drawn matches Some(Update::Rect { x, y, width, height, rgba })
                ==> after.shape.last_rect == Some(CursorRect { x, y, width, height })
        }),
{
    let (rw, rh) = (rect.width as int, rect.height as int);
    assert(rh * (4 * rw) == 4 * (rh * rw)) by (nonlinear_arith);
}

/// A failure that is about a password, in capitals or not, is told as one of authentication, one that
/// is about security alone as one of the negotiation, and any other as one of the engine.
pub proof fn failures_are_told_apart(before: Seq<char>, word: Seq<char>, after: Seq<char>)
    ensures
        ({
            let text = before + word + after;
            let told = Worker::event_acts(ServerEvent::Error(text));
            &&& lowered(word) == "password"@ ==> told == seq![
                Act::Fail("VNC authentication failed: "@ + text),
            ]
            &&& lowered(word) == "security"@ && !mentions(text, "password"@) ==> told == seq![
                Act::Fail("VNC security negotiation failed: "@ + text),
            ]
            &&& !mentions(text, "password"@) && !mentions(text, "security"@) ==> told == seq![
                Act::Fail("VNC engine error: "@ + text),
            ]
            &&& text.len() < 8 ==> told == seq![Act::Fail("VNC engine error: "@ + text)]
        }),
{
    let text = before + word + after;
    reveal_strlit("password");
    reveal_strlit("security");
    words_are_found(before, word, after, "password"@);
    words_are_found(before, word, after, "security"@);
    if text.len() < 8 {
        words_are_found(before, text, after, "password"@);
        words_are_found(before, text, after, "security"@);
    }
}

} // verus!
