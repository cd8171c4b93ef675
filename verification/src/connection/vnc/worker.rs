//! What the VNC worker does about inputs, server events and the passing of time.
use crate::connection::types::{
    events_view, ConnectionEvent, ConnectionInput, Event, Input, KeyboardIndicators, RemoteInput,
    RemoteMouseButton,
};
use crate::connection::vnc::cursor::{
    compute_cursor_rect, draw_cursor_overlay_update, overlay, PointerState, Shape, VncCursorState,
};
use crate::connection::vnc::framebuffer::{
    copy_rect_in_framebuffer, framebuffer_rect_update, picture_len, smaller, update_view,
    write_raw_rect_to_framebuffer, CursorRect, Picture, VncFramebuffer,
};
use crate::connection::vnc::keys::{
    key_state_after, keysym, keysym_from_scancode_with_state, VncKeyState,
};
use crate::remote_display::display::{full_count, updates_view, FrameUpdate, Update};
use crate::text::{
    contains_ignoring_case, decimal, lossy_text, lossy_utf8, mentions, push_decimal, text_bytes,
};
use vstd::prelude::*;
use vstd::utf8::encode_utf8;

verus! {

/// After how many milliseconds without a full refresh the whole picture is asked for.
pub const HEAL_INTERVAL_MS: u64 = 2000;

/// How many rounds with rectangles alone it takes until the whole picture is sent on.
pub const RECT_ONLY_STREAK_LIMIT: u32 = 6;

/// How many rectangles in one round it takes.
pub const RECT_BATCH_LIMIT: usize = 64;

/// How many characters of a password VNC authentication uses.
pub const PASSWORD_LIMIT: usize = 8;

/// What the server reports.
#[derive(Debug)]
pub enum VncServerEvent {
    SetResolution { width: u16, height: u16 },
    RawImage { rect: CursorRect, data: Vec<u8> },
    SetCursor { rect: CursorRect, image: Vec<u8> },
    Copy { dst: CursorRect, src: CursorRect },
    Text(String),
    Error(String),
    /// Anything else, which changes nothing.
    Other,
}

/// What the server reports, as a mathematical value.
#[verifier::ext_equal]
pub enum ServerEvent {
    SetResolution { width: u16, height: u16 },
    RawImage { rect: CursorRect, data: Seq<u8> },
    SetCursor { rect: CursorRect, image: Seq<u8> },
    Copy { dst: CursorRect, src: CursorRect },
    Text(Seq<char>),
    Error(Seq<char>),
    Other,
}

impl View for VncServerEvent {
    type V = ServerEvent;

    open spec fn view(&self) -> ServerEvent {
        match *self {
            VncServerEvent::SetResolution { width, height } => ServerEvent::SetResolution {
                width,
                height,
            },
            VncServerEvent::RawImage { rect, data } => ServerEvent::RawImage { rect, data: data@ },
            VncServerEvent::SetCursor { rect, image } => ServerEvent::SetCursor {
                rect,
                image: image@,
            },
            VncServerEvent::Copy { dst, src } => ServerEvent::Copy { dst, src },
            VncServerEvent::Text(text) => ServerEvent::Text(text@),
            VncServerEvent::Error(text) => ServerEvent::Error(text@),
            VncServerEvent::Other => ServerEvent::Other,
        }
    }
}

/// What the worker has to do.
#[derive(Debug)]
pub enum VncAction {
    /// Send a key.
    Key { keysym: u32, down: bool },
    /// Send the pointer.
    Pointer { x: u16, y: u16, buttons: u8 },
    /// Ask for what changed.
    Refresh,
    /// Ask for the whole picture. The time to the next such request may start anew.
    FullRefresh { restarts_timer: bool },
    /// Tell the user interface of new frames.
    Frames(Vec<FrameUpdate>),
    /// Show a text to the user.
    Message(Vec<u8>),
    /// End the session with an error.
    Fail(String),
}

/// What the worker has to do, as a mathematical value.
#[verifier::ext_equal]
pub enum Act {
    Key { keysym: u32, down: bool },
    Pointer { x: u16, y: u16, buttons: u8 },
    Refresh,
    FullRefresh { restarts_timer: bool },
    Frames(Seq<Update>),
    Message(Seq<u8>),
    Fail(Seq<char>),
}

impl View for VncAction {
    type V = Act;

    open spec fn view(&self) -> Act {
        match *self {
            VncAction::Key { keysym, down } => Act::Key { keysym, down },
            VncAction::Pointer { x, y, buttons } => Act::Pointer { x, y, buttons },
            VncAction::Refresh => Act::Refresh,
            VncAction::FullRefresh { restarts_timer } => Act::FullRefresh { restarts_timer },
            VncAction::Frames(updates) => Act::Frames(updates_view(updates@)),
            VncAction::Message(bytes) => Act::Message(bytes@),
            VncAction::Fail(message) => Act::Fail(message@),
        }
    }
}

/// Actions as mathematical values.
pub open spec fn acts(actions: Seq<VncAction>) -> Seq<Act> {
    Seq::new(actions.len(), |i: int| actions[i]@)
}

/// The state of the worker.
#[derive(Debug)]
pub struct VncWorker {
    pub pointer: PointerState,
    pub framebuffer: VncFramebuffer,
    pub cursor: VncCursorState,
    /// The lock keys as the server is thought to have them.
    pub remote_lock_state: Option<KeyboardIndicators>,
    pub key_state: VncKeyState,
    pub rect_only_streak: u32,
    /// Updates of the present round that have not been sent on.
    pub pending_updates: Vec<FrameUpdate>,
    pub request_sync_refresh: bool,
}

/// The state of the worker as a mathematical value.
#[verifier::ext_equal]
pub struct Worker {
    pub pointer: PointerState,
    pub picture: Picture,
    pub shape: Shape,
    pub locks: Option<KeyboardIndicators>,
    pub keys: VncKeyState,
    pub streak: u32,
    pub pending: Seq<Update>,
    pub sync_asked: bool,
}

impl View for VncWorker {
    type V = Worker;

    open spec fn view(&self) -> Worker {
        Worker {
            pointer: self.pointer,
            picture: self.framebuffer@,
            shape: self.cursor@,
            locks: self.remote_lock_state,
            keys: self.key_state,
            streak: self.rect_only_streak,
            pending: updates_view(self.pending_updates@),
            sync_asked: self.request_sync_refresh,
        }
    }
}

/// An optional update as a list.
pub open spec fn listed(update: Option<Update>) -> Seq<Update> {
    match update {
        Some(u) => seq![u],
        None => Seq::empty(),
    }
}

/// How many steps a turn of the wheel makes: one for each 120 units or part of them, from one to
/// eight.
pub open spec fn steps(delta: i16) -> int {
    let magnitude = if delta < 0 {
        -delta
    } else {
        delta as int
    };
    let n = (magnitude + 119) / 120;
    if n < 1 {
        1
    } else if n > 8 {
        8
    } else {
        n
    }
}

/// `n` times: the wheel's button goes down and up.
pub open spec fn wheel_acts(pointer: PointerState, bit: u8, n: int) -> Seq<Act>
    decreases n,
{
    if n <= 0 {
        Seq::empty()
    } else {
        wheel_acts(pointer, bit, n - 1) + seq![
            Act::Pointer { x: pointer.x, y: pointer.y, buttons: pointer.buttons | bit },
            Act::Pointer { x: pointer.x, y: pointer.y, buttons: pointer.buttons },
        ]
    }
}

/// The keys that type a text: each character down and up, but for the null character.
pub open spec fn paste_acts(text: Seq<char>) -> Seq<Act>
    decreases text.len(),
{
    if text.len() == 0 {
        Seq::empty()
    } else if text.last() == '\0' {
        paste_acts(text.drop_last())
    } else {
        paste_acts(text.drop_last()) + seq![
            Act::Key { keysym: text.last() as u32, down: true },
            Act::Key { keysym: text.last() as u32, down: false },
        ]
    }
}

/// A lock key, down and up, where the two sides differ.
pub open spec fn toggle_acts(remote: bool, local: bool, keysym: u32) -> Seq<Act> {
    if remote != local {
        seq![Act::Key { keysym, down: true }, Act::Key { keysym, down: false }]
    } else {
        Seq::empty()
    }
}

/// The releases of the eight modifier keys.
pub open spec fn release_acts() -> Seq<Act> {
    seq![
        Act::Key { keysym: 0xffe1, down: false },
        Act::Key { keysym: 0xffe2, down: false },
        Act::Key { keysym: 0xffe3, down: false },
        Act::Key { keysym: 0xffe4, down: false },
        Act::Key { keysym: 0xffe9, down: false },
        Act::Key { keysym: 0xffea, down: false },
        Act::Key { keysym: 0xffeb, down: false },
        Act::Key { keysym: 0xffec, down: false },
    ]
}

/// The button bits after a button went down or up.
pub open spec fn buttons_after(buttons: u8, button: RemoteMouseButton, down: bool) -> u8 {
    let mask: u8 = match button {
        RemoteMouseButton::Left => 1,
        RemoteMouseButton::Middle => 2,
        RemoteMouseButton::Right => 4,
    };
    if down {
        buttons | mask
    } else {
        buttons & !mask
    }
}

/// What is shown to the user of a failure that the server reports.
pub open spec fn failure_text(text: Seq<char>) -> Seq<char> {
    if mentions(text, "password"@) {
        "VNC authentication failed: "@ + text
    } else if mentions(text, "security"@) {
        "VNC security negotiation failed: "@ + text
    } else {
        "VNC engine error: "@ + text
    }
}

impl Worker {
    /// Whether the picture has all its pixels.
    pub open spec fn wf(self) -> bool {
        self.picture.wf()
    }

    /// The worker with the cursor drawn where it is now.
    pub open spec fn with_overlay(self) -> Worker {
        Worker { shape: self.shape.drawn(self.picture, self.pointer), ..self }
    }

    /// The update that draws the cursor.
    pub open spec fn overlay(self) -> Seq<Update> {
        listed(overlay(self.picture, self.shape, self.pointer))
    }

    /// The update that restores what the cursor covered, where it has moved away.
    pub open spec fn uncovered(self) -> Seq<Update> {
        let next = self.shape.rect_on(self.picture, self.pointer);
        match self.shape.last_rect {
            Some(r) => if self.shape.last_rect != next {
                listed(self.picture.rect_update(r))
            } else {
                Seq::empty()
            },
            None => Seq::empty(),
        }
    }

    /// Whether a raw image comes with all its pixels.
    pub open spec fn raw_complete(rect: CursorRect, data: Seq<u8>) -> bool {
        data.len() >= rect.height * (4 * rect.width)
    }

    /// The picture and the cursor after a server event; the updates of the round are not in it.
    pub open spec fn after_event(self, event: ServerEvent) -> Worker {
        match event {
            ServerEvent::SetResolution { width, height } => Worker {
                picture: Picture::blank(width, height),
                shape: Shape { last_rect: None, needs_sync: true, ..self.shape },
                ..self
            },
            ServerEvent::RawImage { rect, data } => if Self::raw_complete(rect, data) {
                Worker {
                    picture: self.picture.written(
                        rect,
                        data.take(rect.height * (4 * rect.width)),
                    ),
                    ..self
                }.with_overlay()
            } else {
                self
            },
            ServerEvent::SetCursor { rect, image } => self.with_cursor(rect, image).with_overlay(),
            ServerEvent::Copy { dst, src } => {
                let w = smaller(dst.width, src.width);
                let h = smaller(dst.height, src.height);
                let after = Worker {
                    picture: self.picture.copied(dst.x, dst.y, src.x, src.y, w, h),
                    ..self
                };
                if self.picture.copy_update(dst.x, dst.y, src.x, src.y, w, h) is Some {
                    after.with_overlay()
                } else {
                    after
                }
            },
            _ => self,
        }
    }

    /// The worker with another cursor shape.
    pub open spec fn with_cursor(self, rect: CursorRect, image: Seq<u8>) -> Worker {
        Worker {
            shape: Shape {
                hot_x: rect.x,
                hot_y: rect.y,
                width: rect.width,
                height: rect.height,
                rgba: image,
                last_rect: self.shape.last_rect,
                needs_sync: false,
            },
            ..self
        }
    }

    /// The updates that a server event gives.
    pub open spec fn event_updates(self, event: ServerEvent) -> Seq<Update> {
        match event {
            ServerEvent::SetResolution { width, height } => seq![
                Update::Full { width, height, rgba: Picture::blank(width, height).rgba },
            ],
            ServerEvent::RawImage { rect, data } => if Self::raw_complete(rect, data) {
                let rgba = data.take(rect.height * (4 * rect.width));
                seq![
                    Update::Rect {
                        x: rect.x,
                        y: rect.y,
                        width: rect.width,
                        height: rect.height,
                        rgba,
                    },
                ] + (Worker { picture: self.picture.written(rect, rgba), ..self }).overlay()
            } else {
                Seq::empty()
            },
            ServerEvent::SetCursor { rect, image } => {
                let w = self.with_cursor(rect, image);
                w.uncovered() + w.overlay()
            },
            ServerEvent::Copy { dst, src } => {
                let w = smaller(dst.width, src.width);
                let h = smaller(dst.height, src.height);
                match self.picture.copy_update(dst.x, dst.y, src.x, src.y, w, h) {
                    Some(u) => seq![u] + (Worker {
                        picture: self.picture.copied(dst.x, dst.y, src.x, src.y, w, h),
                        ..self
                    }).overlay(),
                    None => Seq::empty(),
                }
            },
            _ => Seq::empty(),
        }
    }

    /// Whether a server event asks for the whole picture after the round.
    pub open spec fn event_asks_sync(self, event: ServerEvent) -> bool {
        event is SetCursor && self.shape.needs_sync
    }

    /// What a server event makes the worker do at once.
    pub open spec fn event_acts(event: ServerEvent) -> Seq<Act> {
        match event {
            ServerEvent::Text(text) => seq![
                Act::Message(
                    encode_utf8(
                        "\r\n[VNC] Clipboard text from server: "@ + text + "\r\n"@,
                    ),
                ),
            ],
            ServerEvent::Error(text) => seq![Act::Fail(failure_text(text))],
            _ => Seq::empty(),
        }
    }

    /// The worker after a server event.
    pub open spec fn served(self, event: ServerEvent) -> Worker {
        Worker {
            pending: self.pending + self.event_updates(event),
            sync_asked: self.sync_asked || self.event_asks_sync(event),
            ..self.after_event(event)
        }
    }

    /// Whether a round of updates is sent on as the whole picture: it holds rectangles alone, and
    /// many of them, or follows a streak of such rounds.
    pub open spec fn promotes(self) -> bool {
        let streak = if self.streak == u32::MAX {
            u32::MAX
        } else {
            (self.streak + 1) as u32
        };
        &&& full_count(self.pending, self.pending.len() as int) == 0
        &&& self.pending.len() > 0
        &&& self.pending.len() >= RECT_BATCH_LIMIT || streak >= RECT_ONLY_STREAK_LIMIT
        &&& self.picture.full_update() is Some
    }

    /// The worker when a round's updates are ready to be sent on.
    pub open spec fn promoted(self) -> Worker {
        if full_count(self.pending, self.pending.len() as int) > 0 {
            Worker { streak: 0, ..self }
        } else if self.pending.len() == 0 {
            self
        } else if self.promotes() {
            Worker {
                pending: listed(self.picture.full_update()) + self.overlay(),
                streak: 0,
                ..self.with_overlay()
            }
        } else {
            Worker {
                streak: if self.streak == u32::MAX {
                    u32::MAX
                } else {
                    (self.streak + 1) as u32
                },
                ..self
            }
        }
    }

    /// What the worker does at the end of a round.
    pub open spec fn round_acts(self) -> Seq<Act> {
        let p = self.promoted();
        (if p.pending.len() > 0 {
            seq![Act::Frames(p.pending)]
        } else {
            Seq::empty()
        }) + (if self.sync_asked {
            seq![Act::FullRefresh { restarts_timer: true }]
        } else {
            Seq::empty()
        })
    }

    /// The worker after a keyboard or mouse input.
    pub open spec fn after_remote(self, input: RemoteInput) -> Worker {
        match input {
            RemoteInput::KeyboardScancode { code, extended, down } => Worker {
                keys: key_state_after(self.keys, code, extended, down),
                ..self
            },
            RemoteInput::MouseMove { x, y } => {
                let moved = Worker { pointer: PointerState { x, y, ..self.pointer }, ..self };
                if moved.shape.last_rect == moved.shape.rect_on(moved.picture, moved.pointer) {
                    moved
                } else {
                    moved.with_overlay()
                }
            },
            RemoteInput::MouseButton { button, down } => Worker {
                pointer: PointerState {
                    buttons: buttons_after(self.pointer.buttons, button, down),
                    ..self.pointer
                },
                ..self
            },
            _ => self,
        }
    }

    /// What the worker does about a keyboard or mouse input.
    pub open spec fn remote_acts(self, input: RemoteInput) -> Seq<Act> {
        match input {
            RemoteInput::KeyboardScancode { code, extended, down } => match keysym(
                code,
                extended,
                key_state_after(self.keys, code, extended, down),
            ) {
                Some(keysym) => seq![Act::Key { keysym, down }],
                None => Seq::empty(),
            },
            RemoteInput::KeyboardUnicode { codepoint, down } => seq![
                Act::Key { keysym: codepoint as u32, down },
            ],
            RemoteInput::MouseMove { x, y } => {
                let moved = Worker { pointer: PointerState { x, y, ..self.pointer }, ..self };
                let updates = moved.uncovered() + moved.overlay();
                seq![Act::Pointer { x, y, buttons: self.pointer.buttons }] + (if moved.shape.last_rect
                    == moved.shape.rect_on(moved.picture, moved.pointer) || updates.len() == 0 {
                    Seq::empty()
                } else {
                    seq![Act::Frames(updates)]
                })
            },
            RemoteInput::MouseButton { button, down } => seq![
                Act::Pointer {
                    x: self.pointer.x,
                    y: self.pointer.y,
                    buttons: buttons_after(self.pointer.buttons, button, down),
                },
            ],
            RemoteInput::MouseWheel { delta } => wheel_acts(
                self.pointer,
                if delta > 0 {
                    0x08
                } else {
                    0x10
                },
                steps(delta),
            ),
            RemoteInput::MouseHorizontalWheel { delta } => wheel_acts(
                self.pointer,
                if delta > 0 {
                    0x20
                } else {
                    0x40
                },
                steps(delta),
            ),
        }
    }

    /// The worker after an input.
    pub open spec fn after_input(self, input: Input) -> Worker {
        match input {
            Input::RemoteInput(remote) => self.after_remote(remote),
            Input::SyncKeyboardIndicators(local) => Worker {
                keys: VncKeyState {
                    num_lock: local.num_lock,
                    caps_lock: local.caps_lock,
                    scroll_lock: local.scroll_lock,
                    ..self.keys
                },
                locks: Some(local),
                ..self
            },
            _ => self,
        }
    }

    /// The lock keys as the server is thought to have them; off, where nothing is known.
    pub open spec fn remote_locks(self) -> KeyboardIndicators {
        match self.locks {
            Some(locks) => locks,
            None => KeyboardIndicators { scroll_lock: false, num_lock: false, caps_lock: false },
        }
    }

    /// What the worker does about an input.
    pub open spec fn input_acts(self, input: Input) -> Seq<Act> {
        match input {
            Input::RemoteInput(remote) => self.remote_acts(remote),
            Input::Data(bytes) => paste_acts(lossy_utf8(bytes)),
            Input::Resize { cols, rows } => seq![Act::FullRefresh { restarts_timer: false }],
            Input::SyncKeyboardIndicators(local) => {
                let remote = self.remote_locks();
                toggle_acts(remote.caps_lock, local.caps_lock, 0xffe5) + toggle_acts(
                    remote.num_lock,
                    local.num_lock,
                    0xff7f,
                ) + toggle_acts(remote.scroll_lock, local.scroll_lock, 0xff14)
            },
            Input::ReleaseAllModifiers => release_acts(),
        }
    }
}

/// Whether an input is meant for a server that is only watched: keys, the mouse and pasted text are
/// not.
pub fn is_let_through(view_only: bool, input: &ConnectionInput) -> (b: bool)
    ensures
        b == (!view_only || input@ is Resize),
{
    match input {
        ConnectionInput::Resize { .. } => true,
        _ => !view_only,
    }
}

/// How many steps a turn of the wheel makes.
pub fn wheel_steps(delta: i16) -> (n: usize)
    ensures
        n == steps(delta),
{
    let magnitude: u32 = if delta < 0 {
        (-(delta as i32)) as u32
    } else {
        delta as u32
    };
    let n: u32 = (magnitude + 119) / 120;
    if n < 1 {
        1
    } else if n > 8 {
        8
    } else {
        n as usize
    }
}

/// Appends an update to a list where there is one.
fn push_update(updates: &mut Vec<FrameUpdate>, update: Option<FrameUpdate>)
    ensures
        updates_view(final(updates)@) == updates_view(old(updates)@) + listed(update_view(update)),
{
    let ghost before = updates_view(updates@);
    if let Some(u) = update {
        let ghost added = u@;
        updates.push(u);
        assert(updates_view(updates@) =~= before + seq![added]);
    } else {
        assert(updates_view(updates@) =~= before + Seq::<Update>::empty());
    }
}

/// Appends an action to a list.
fn push_act(actions: &mut Vec<VncAction>, action: VncAction)
    ensures
        acts(final(actions)@) == acts(old(actions)@).push(action@),
{
    let ghost before = acts(actions@);
    let ghost added = action@;
    actions.push(action);
    assert(acts(actions@) =~= before.push(added));
}

/// Appends a key press and release to a list.
fn push_key_stroke(actions: &mut Vec<VncAction>, keysym: u32)
    ensures
        acts(final(actions)@) == acts(old(actions)@) + seq![
            Act::Key { keysym, down: true },
            Act::Key { keysym, down: false },
        ],
{
    let ghost before = acts(actions@);
    push_act(actions, VncAction::Key { keysym, down: true });
    push_act(actions, VncAction::Key { keysym, down: false });
    assert(acts(actions@) =~= before + seq![
        Act::Key { keysym, down: true },
        Act::Key { keysym, down: false },
    ]);
}

/// The keys that type a text.
pub fn paste_keys(text: &str) -> (actions: Vec<VncAction>)
    ensures
        acts(actions@) == paste_acts(text@),
{
    let len: usize = text.unicode_len();
    let mut actions: Vec<VncAction> = Vec::new();
    let mut i: usize = 0;
    assert(text@.take(0) =~= Seq::empty());
    assert(acts(actions@) =~= Seq::empty());
    while i < len
        invariant
            i <= len,
            len == text@.len(),
            acts(actions@) == paste_acts(text@.take(i as int)),
        decreases len - i,
    {
        let c: char = text.get_char(i);
        assert(text@.take(i + 1).drop_last() =~= text@.take(i as int));
        if c != '\0' {
            push_key_stroke(&mut actions, c as u32);
        }
        i = i + 1;
    }
    assert(text@.take(len as int) =~= text@);
    actions
}

/// The strokes that bring the server's lock keys in line with the local ones.
pub fn sync_keyboard_indicators(remote: KeyboardIndicators, local: KeyboardIndicators) -> (actions:
    Vec<VncAction>)
    ensures
        acts(actions@) == toggle_acts(remote.caps_lock, local.caps_lock, 0xffe5) + toggle_acts(
            remote.num_lock,
            local.num_lock,
            0xff7f,
        ) + toggle_acts(remote.scroll_lock, local.scroll_lock, 0xff14),
{
    let mut actions: Vec<VncAction> = Vec::new();
    assert(acts(actions@) =~= Seq::empty());
    if remote.caps_lock != local.caps_lock {
        push_key_stroke(&mut actions, 0xffe5);
    }
    if remote.num_lock != local.num_lock {
        push_key_stroke(&mut actions, 0xff7f);
    }
    if remote.scroll_lock != local.scroll_lock {
        push_key_stroke(&mut actions, 0xff14);
    }
    assert(acts(actions@) =~= toggle_acts(remote.caps_lock, local.caps_lock, 0xffe5)
        + toggle_acts(remote.num_lock, local.num_lock, 0xff7f) + toggle_acts(
        remote.scroll_lock,
        local.scroll_lock,
        0xff14,
    ));
    actions
}

/// The releases of the modifier keys.
fn release_modifiers() -> (actions: Vec<VncAction>)
    ensures
        acts(actions@) == release_acts(),
{
    let actions: Vec<VncAction> = vec![
        VncAction::Key { keysym: 0xffe1, down: false },
        VncAction::Key { keysym: 0xffe2, down: false },
        VncAction::Key { keysym: 0xffe3, down: false },
        VncAction::Key { keysym: 0xffe4, down: false },
        VncAction::Key { keysym: 0xffe9, down: false },
        VncAction::Key { keysym: 0xffea, down: false },
        VncAction::Key { keysym: 0xffeb, down: false },
        VncAction::Key { keysym: 0xffec, down: false },
    ];
    assert(acts(actions@) =~= release_acts());
    actions
}

/// The clicks of a wheel's button.
fn wheel_clicks(pointer: PointerState, bit: u8, n: usize) -> (actions: Vec<VncAction>)
    ensures
        acts(actions@) == wheel_acts(pointer, bit, n as int),
{
    let mut actions: Vec<VncAction> = Vec::new();
    let mut i: usize = 0;
    assert(acts(actions@) =~= Seq::empty());
    while i < n
        invariant
            i <= n,
            acts(actions@) == wheel_acts(pointer, bit, i as int),
        decreases n - i,
    {
        let ghost before = acts(actions@);
        push_act(
            &mut actions,
            VncAction::Pointer { x: pointer.x, y: pointer.y, buttons: pointer.buttons | bit },
        );
        push_act(
            &mut actions,
            VncAction::Pointer { x: pointer.x, y: pointer.y, buttons: pointer.buttons },
        );
        assert(acts(actions@) =~= before + seq![
            Act::Pointer { x: pointer.x, y: pointer.y, buttons: pointer.buttons | bit },
            Act::Pointer { x: pointer.x, y: pointer.y, buttons: pointer.buttons },
        ]);
        i = i + 1;
    }
    actions
}

/// What is shown to the user of a failure that the server reports.
pub fn server_failure(text: &str) -> (message: String)
    ensures
        message@ == failure_text(text@),
{
    let prefix: &str = if contains_ignoring_case(text, "password") {
        "VNC authentication failed: "
    } else if contains_ignoring_case(text, "security") {
        "VNC security negotiation failed: "
    } else {
        "VNC engine error: "
    };
    String::from_str(prefix).concat(text)
}

/// A warning for a password that is longer than VNC authentication uses.
pub fn password_warning(password: &str) -> (warning: Option<Vec<u8>>)
    ensures
        warning is Some <==> password@.len() > PASSWORD_LIMIT,
        warning matches Some(w) ==> w@ == encode_utf8(
            "\r\n[VNC] Warning: passwords longer than 8 chars may fail on VNCAuth servers.\r\n"@,
        ),
{
    if password.unicode_len() > PASSWORD_LIMIT {
        Some(
            text_bytes(
                "\r\n[VNC] Warning: passwords longer than 8 chars may fail on VNCAuth servers.\r\n",
            ),
        )
    } else {
        None
    }
}

/// What has come of connecting.
#[derive(Debug)]
pub enum VncHandshake {
    /// The session stands, and takes inputs on the channel with this number.
    Completed { channel: u64 },
    /// There is no session; the text says why.
    Failed(String),
}

/// The words about a session that has started.
pub open spec fn connected_words(host: Seq<char>, port: u16) -> Seq<char> {
    "\r\n[VNC] Connected: "@ + host + ":"@ + decimal(port as nat)
        + " (encodings: CopyRect, Raw, DesktopSize, CursorPseudo)\r\n"@
}

/// The events at the end of connecting: that the session stands and where, or else nothing but the
/// error.
pub fn handshake_events(host: &str, port: u16, handshake: VncHandshake) -> (events: Vec<
    ConnectionEvent,
>)
    ensures
        events_view(events@) == (match handshake {
            VncHandshake::Completed { channel } => seq![
                Event::Connected(channel),
                Event::Data(encode_utf8(connected_words(host@, port))),
            ],
            VncHandshake::Failed(reason) => seq![Event::Error(reason@)],
        }),
{
    let mut events: Vec<ConnectionEvent> = Vec::new();
    match handshake {
        VncHandshake::Completed { channel } => {
            events.push(ConnectionEvent::Connected(channel));
            events.push(ConnectionEvent::Data(connected_message(host, port)));
            assert(events_view(events@) =~= seq![
                Event::Connected(channel),
                Event::Data(encode_utf8(connected_words(host@, port))),
            ]);
        },
        VncHandshake::Failed(reason) => {
            events.push(ConnectionEvent::Error(reason));
            assert(events_view(events@) =~= seq![Event::Error(reason@)]);
        },
    }
    events
}

/// What is shown when a session has started.
pub fn connected_message(host: &str, port: u16) -> (message: Vec<u8>)
    ensures
        message@ == encode_utf8(connected_words(host@, port)),
{
    let mut text = String::from_str("\r\n[VNC] Connected: ").concat(host).concat(":");
    push_decimal(&mut text, port as u64);
    let text = text.concat(" (encodings: CopyRect, Raw, DesktopSize, CursorPseudo)\r\n");
    text_bytes(text.as_str())
}

/// The first `n` bytes of some data.
fn first_bytes(data: Vec<u8>, n: usize) -> (bytes: Vec<u8>)
    requires
        n <= data@.len(),
    ensures
        bytes@ == data@.take(n as int),
{
    let mut bytes = data;
    bytes.truncate(n);
    assert(bytes@ =~= data@.take(n as int));
    bytes
}

impl Default for VncWorker {
    fn default() -> (w: Self)
        ensures
            w@ == (Worker {
                pointer: PointerState { x: 0, y: 0, buttons: 0 },
                picture: Picture::blank(0, 0),
                shape: Shape {
                    hot_x: 0,
                    hot_y: 0,
                    width: 0,
                    height: 0,
                    rgba: Seq::empty(),
                    last_rect: None,
                    needs_sync: false,
                },
                locks: None,
                keys: VncKeyState {
                    shift_left: false,
                    shift_right: false,
                    caps_lock: false,
                    num_lock: false,
                    scroll_lock: false,
                },
                streak: 0,
                pending: Seq::empty(),
                sync_asked: false,
            }),
            w@.wf(),
    {
        let w = VncWorker {
            pointer: PointerState::default(),
            framebuffer: VncFramebuffer::default(),
            cursor: VncCursorState::default(),
            remote_lock_state: None,
            key_state: VncKeyState::default(),
            rect_only_streak: 0,
            pending_updates: Vec::new(),
            request_sync_refresh: false,
        };
        assert(w@.pending =~= Seq::empty());
        w
    }
}

impl VncWorker {
    /// Draws the cursor into the updates.
    fn push_overlay(&mut self, updates: &mut Vec<FrameUpdate>)
        requires
            old(self)@.wf(),
        ensures
            final(self)@ == old(self)@.with_overlay(),
            final(self).pending_updates == old(self).pending_updates,
            updates_view(final(updates)@) == updates_view(old(updates)@) + old(self)@.overlay(),
    {
        let drawn = draw_cursor_overlay_update(&self.framebuffer, &mut self.cursor, &self.pointer);
        push_update(updates, drawn);
    }

    /// Restores what the cursor covered, where it has moved away.
    fn push_uncovered(&self, updates: &mut Vec<FrameUpdate>)
        ensures
            updates_view(final(updates)@) == updates_view(old(updates)@) + self@.uncovered(),
    {
        let ghost before = updates_view(updates@);
        let previous = self.cursor.last_rect;
        let next = compute_cursor_rect(&self.framebuffer, &self.cursor, &self.pointer);
        if let Some(old_rect) = previous {
            let moved: bool = match next {
                Some(r) => r != old_rect,
                None => true,
            };
            if moved {
                let restored = framebuffer_rect_update(&self.framebuffer, old_rect);
                push_update(updates, restored);
                return;
            }
        }
        assert(before + Seq::<Update>::empty() =~= before);
    }

    /// Starts over with a picture of another size.
    fn set_resolution(&mut self, width: u16, height: u16) -> (updates: Vec<FrameUpdate>)
        requires
            height * (4 * width) <= usize::MAX,
        ensures
            final(self)@ == old(self)@.after_event(ServerEvent::SetResolution { width, height }),
            final(self)@.wf(),
            updates_view(updates@) == old(self)@.event_updates(
                ServerEvent::SetResolution { width, height },
            ),
    {
        self.framebuffer.reset(width, height);
        self.cursor.last_rect = None;
        self.cursor.needs_cursor_sync_full_refresh = true;
        let rgba = self.framebuffer.rgba.clone();
        assert(rgba@ =~= Picture::blank(width, height).rgba);
        let mut updates: Vec<FrameUpdate> = Vec::new();
        assert(updates_view(updates@) =~= Seq::empty());
        push_update(&mut updates, Some(FrameUpdate::Full { width, height, rgba }));
        assert(updates_view(updates@) =~= old(self)@.event_updates(
            ServerEvent::SetResolution { width, height },
        ));
        updates
    }

    /// Writes pixels over the picture.
    fn raw_image(&mut self, rect: CursorRect, data: Vec<u8>) -> (updates: Vec<FrameUpdate>)
        requires
            old(self)@.wf(),
        ensures
            final(self)@ == old(self)@.after_event(ServerEvent::RawImage { rect, data: data@ }),
            final(self)@.wf(),
            updates_view(updates@) == old(self)@.event_updates(
                ServerEvent::RawImage { rect, data: data@ },
            ),
    {
        let mut updates: Vec<FrameUpdate> = Vec::new();
        assert(updates_view(updates@) =~= Seq::empty());
        let expected: u64 = picture_len(rect.width, rect.height);
        if data.len() as u64 >= expected {
            let rgba = first_bytes(data, expected as usize);
            write_raw_rect_to_framebuffer(
                &mut self.framebuffer,
                rect.x,
                rect.y,
                rect.width,
                rect.height,
                &rgba,
            );
            push_update(
                &mut updates,
                Some(
                    FrameUpdate::Rect {
                        x: rect.x,
                        y: rect.y,
                        width: rect.width,
                        height: rect.height,
                        rgba,
                    },
                ),
            );
            self.push_overlay(&mut updates);
            assert(updates_view(updates@) =~= old(self)@.event_updates(
                ServerEvent::RawImage { rect, data: data@ },
            ));
        }
        updates
    }

    /// Takes another cursor shape.
    fn set_cursor(&mut self, rect: CursorRect, image: Vec<u8>) -> (updates: Vec<FrameUpdate>)
        requires
            old(self)@.wf(),
        ensures
            final(self)@ == (Worker {
                sync_asked: old(self)@.sync_asked || old(self)@.shape.needs_sync,
                ..old(self)@.after_event(ServerEvent::SetCursor { rect, image: image@ })
            }),
            final(self)@.wf(),
            updates_view(updates@) == old(self)@.event_updates(
                ServerEvent::SetCursor { rect, image: image@ },
            ),
    {
        self.cursor.hot_x = rect.x;
        self.cursor.hot_y = rect.y;
        self.cursor.width = rect.width;
        self.cursor.height = rect.height;
        self.cursor.rgba = image;
        if self.cursor.needs_cursor_sync_full_refresh {
            self.request_sync_refresh = true;
        }
        self.cursor.needs_cursor_sync_full_refresh = false;
        let mut updates: Vec<FrameUpdate> = Vec::new();
        assert(updates_view(updates@) =~= Seq::empty());
        self.push_uncovered(&mut updates);
        self.push_overlay(&mut updates);
        assert(updates_view(updates@) =~= old(self)@.event_updates(
            ServerEvent::SetCursor { rect, image: image@ },
        ));
        updates
    }

    /// Copies a part of the picture to another place.
    fn copy_rect(&mut self, dst: CursorRect, src: CursorRect) -> (updates: Vec<FrameUpdate>)
        requires
            old(self)@.wf(),
        ensures
            final(self)@ == old(self)@.after_event(ServerEvent::Copy { dst, src }),
            final(self)@.wf(),
            updates_view(updates@) == old(self)@.event_updates(ServerEvent::Copy { dst, src }),
    {
        let w: u16 = if dst.width < src.width {
            dst.width
        } else {
            src.width
        };
        let h: u16 = if dst.height < src.height {
            dst.height
        } else {
            src.height
        };
        let copied = copy_rect_in_framebuffer(
            &mut self.framebuffer,
            dst.x,
            dst.y,
            src.x,
            src.y,
            w,
            h,
        );
        let mut updates: Vec<FrameUpdate> = Vec::new();
        assert(updates_view(updates@) =~= Seq::empty());
        if copied.is_some() {
            push_update(&mut updates, copied);
            self.push_overlay(&mut updates);
            assert(updates_view(updates@) =~= old(self)@.event_updates(
                ServerEvent::Copy { dst, src },
            ));
        }
        updates
    }

    /// Takes in what the server reports.
    pub fn handle_vnc_event(&mut self, event: VncServerEvent) -> (actions: Vec<VncAction>)
        requires
            old(self)@.wf(),
            event@ matches ServerEvent::SetResolution { width, height } ==> height * (4 * width)
                <= usize::MAX,
        ensures
            final(self)@ == old(self)@.served(event@),
            final(self)@.wf(),
            acts(actions@) == Worker::event_acts(event@),
    {
        let ghost before = self@;
        let ghost seen = event@;
        let mut actions: Vec<VncAction> = Vec::new();
        assert(acts(actions@) =~= Seq::empty());
        let mut updates: Vec<FrameUpdate> = match event {
            VncServerEvent::SetResolution { width, height } => self.set_resolution(width, height),
            VncServerEvent::RawImage { rect, data } => self.raw_image(rect, data),
            VncServerEvent::SetCursor { rect, image } => self.set_cursor(rect, image),
            VncServerEvent::Copy { dst, src } => self.copy_rect(dst, src),
            VncServerEvent::Text(text) => {
                let shown = String::from_str("\r\n[VNC] Clipboard text from server: ").concat(
                    text.as_str(),
                ).concat("\r\n");
                push_act(&mut actions, VncAction::Message(text_bytes(shown.as_str())));
                Vec::new()
            },
            VncServerEvent::Error(text) => {
                push_act(&mut actions, VncAction::Fail(server_failure(text.as_str())));
                Vec::new()
            },
            VncServerEvent::Other => Vec::new(),
        };
        assert(updates_view(updates@) =~= before.event_updates(seen));
        let ghost added = updates_view(updates@);
        self.pending_updates.append(&mut updates);
        assert(self@.pending =~= before.pending + added);
        assert(acts(actions@) =~= Worker::event_acts(seen));
        actions
    }

    /// Takes in a keyboard or mouse input.
    pub fn handle_remote_input(&mut self, remote: RemoteInput) -> (actions: Vec<VncAction>)
        requires
            old(self)@.wf(),
        ensures
            final(self)@ == old(self)@.after_remote(remote),
            final(self)@.wf(),
            acts(actions@) == old(self)@.remote_acts(remote),
    {
        let ghost before = self@;
        let mut actions: Vec<VncAction> = Vec::new();
        assert(acts(actions@) =~= Seq::empty());
        match remote {
            RemoteInput::KeyboardScancode { code, extended, down } => {
                self.key_state.update_from_scancode(code, extended, down);
                if let Some(keysym) = keysym_from_scancode_with_state(
                    code,
                    extended,
                    &self.key_state,
                ) {
                    push_act(&mut actions, VncAction::Key { keysym, down });
                }
            },
            RemoteInput::KeyboardUnicode { codepoint, down } => {
                push_act(&mut actions, VncAction::Key { keysym: codepoint as u32, down });
            },
            RemoteInput::MouseMove { x, y } => {
                self.pointer.x = x;
                self.pointer.y = y;
                push_act(&mut actions, VncAction::Pointer { x, y, buttons: self.pointer.buttons });
                let ghost moved = self@;
                let previous = self.cursor.last_rect;
                let next = compute_cursor_rect(&self.framebuffer, &self.cursor, &self.pointer);
                let same: bool = match (previous, next) {
                    (Some(a), Some(b)) => a == b,
                    (None, None) => true,
                    _ => false,
                };
                if !same {
                    let mut updates: Vec<FrameUpdate> = Vec::new();
                    assert(updates_view(updates@) =~= Seq::empty());
                    self.push_uncovered(&mut updates);
                    self.push_overlay(&mut updates);
                    assert(updates_view(updates@) =~= moved.uncovered() + moved.overlay());
                    if updates.len() > 0 {
                        push_act(&mut actions, VncAction::Frames(updates));
                    }
                }
            },
            RemoteInput::MouseButton { button, down } => {
                let mask: u8 = match button {
                    RemoteMouseButton::Left => 1,
                    RemoteMouseButton::Middle => 2,
                    RemoteMouseButton::Right => 4,
                };
                self.pointer.buttons = if down {
                    self.pointer.buttons | mask
                } else {
                    self.pointer.buttons & !mask
                };
                push_act(
                    &mut actions,
                    VncAction::Pointer {
                        x: self.pointer.x,
                        y: self.pointer.y,
                        buttons: self.pointer.buttons,
                    },
                );
            },
            RemoteInput::MouseWheel { delta } => {
                let bit: u8 = if delta > 0 {
                    0x08
                } else {
                    0x10
                };
                actions = wheel_clicks(self.pointer, bit, wheel_steps(delta));
            },
            RemoteInput::MouseHorizontalWheel { delta } => {
                let bit: u8 = if delta > 0 {
                    0x20
                } else {
                    0x40
                };
                actions = wheel_clicks(self.pointer, bit, wheel_steps(delta));
            },
        }
        assert(acts(actions@) =~= before.remote_acts(remote));
        actions
    }

    /// Takes in an input from the user interface.
    pub fn handle_connection_input(&mut self, input: ConnectionInput) -> (actions: Vec<VncAction>)
        requires
            old(self)@.wf(),
        ensures
            final(self)@ == old(self)@.after_input(input@),
            final(self)@.wf(),
            acts(actions@) == old(self)@.input_acts(input@),
    {
        match input {
            ConnectionInput::RemoteInput(remote) => self.handle_remote_input(remote),
            ConnectionInput::Data(bytes) => {
                let text = lossy_text(&bytes);
                paste_keys(text.as_str())
            },
            ConnectionInput::Resize { cols, rows } => {
                let mut actions: Vec<VncAction> = Vec::new();
                assert(acts(actions@) =~= Seq::empty());
                push_act(&mut actions, VncAction::FullRefresh { restarts_timer: false });
                actions
            },
            ConnectionInput::SyncKeyboardIndicators(local) => {
                self.key_state.num_lock = local.num_lock;
                self.key_state.caps_lock = local.caps_lock;
                self.key_state.scroll_lock = local.scroll_lock;
                let remote = match self.remote_lock_state {
                    Some(locks) => locks,
                    None => KeyboardIndicators::default(),
                };
                self.remote_lock_state = Some(local);
                sync_keyboard_indicators(remote, local)
            },
            ConnectionInput::ReleaseAllModifiers => release_modifiers(),
        }
    }

    /// What to ask the server for at a tick, by the time since the whole picture was asked for.
    pub fn tick(&self, since_full_refresh_ms: u64) -> (action: VncAction)
        ensures
            action@ == (if since_full_refresh_ms >= HEAL_INTERVAL_MS {
                Act::FullRefresh { restarts_timer: true }
            } else {
                Act::Refresh
            }),
    {
        if since_full_refresh_ms >= HEAL_INTERVAL_MS {
            VncAction::FullRefresh { restarts_timer: true }
        } else {
            VncAction::Refresh
        }
    }

    /// Turns a round of rectangles into the whole picture where that is due.
    pub fn maybe_promote_vnc_updates_to_full(&mut self)
        requires
            old(self)@.wf(),
        ensures
            final(self)@ == old(self)@.promoted(),
            final(self)@.wf(),
    {
        let ghost before = self@;
        let mut fulls: usize = 0;
        let mut i: usize = 0;
        while i < self.pending_updates.len()
            invariant
                i <= self.pending_updates@.len(),
                self@ == before,
                fulls == full_count(before.pending, i as int),
                fulls <= i,
            decreases self.pending_updates@.len() - i,
        {
            assert(before.pending[i as int] == self.pending_updates@[i as int]@);
            match &self.pending_updates[i] {
                FrameUpdate::Full { .. } => {
                    fulls = fulls + 1;
                },
                FrameUpdate::Rect { .. } => {},
            }
            i = i + 1;
        }
        if fulls > 0 {
            self.rect_only_streak = 0;
            return;
        }
        if self.pending_updates.len() == 0 {
            return;
        }
        self.rect_only_streak = self.rect_only_streak.saturating_add(1);
        if self.pending_updates.len() >= RECT_BATCH_LIMIT || self.rect_only_streak
            >= RECT_ONLY_STREAK_LIMIT {
            let full = self.framebuffer.as_full_update();
            if full.is_some() {
                let mut updates: Vec<FrameUpdate> = Vec::new();
                assert(updates_view(updates@) =~= Seq::empty());
                push_update(&mut updates, full);
                self.push_overlay(&mut updates);
                self.pending_updates = updates;
                self.rect_only_streak = 0;
                assert(self@.pending =~= before.promoted().pending);
            }
        }
    }

    /// Ends a round: the server has nothing more to report for now.
    pub fn end_round(&mut self) -> (actions: Vec<VncAction>)
        requires
            old(self)@.wf(),
        ensures
            final(self)@ == (Worker {
                pending: Seq::empty(),
                sync_asked: false,
                ..old(self)@.promoted()
            }),
            final(self)@.wf(),
            acts(actions@) == old(self)@.round_acts(),
    {
        let ghost before = self@;
        self.maybe_promote_vnc_updates_to_full();
        let mut actions: Vec<VncAction> = Vec::new();
        assert(acts(actions@) =~= Seq::empty());
        let mut updates: Vec<FrameUpdate> = Vec::new();
        std::mem::swap(&mut updates, &mut self.pending_updates);
        assert(self@.pending =~= Seq::empty());
        if updates.len() > 0 {
            push_act(&mut actions, VncAction::Frames(updates));
        }
        if self.request_sync_refresh {
            push_act(&mut actions, VncAction::FullRefresh { restarts_timer: true });
            self.request_sync_refresh = false;
        }
        assert(acts(actions@) =~= before.round_acts());
        actions
    }
}

} // verus!
