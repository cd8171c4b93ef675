//! What the RDP worker does about inputs, what the session reports and the passing of time.
use crate::connection::rdp::input::{
    apply_key, apply_mouse, held, lock_event, new_database, sync_event, Held, KeyOperation,
    MouseOperation, WireEvent,
};
use crate::connection::rdp::slowpath::{
    count_places, places, slowpath_updates, try_handle_slowpath_bitmap, update_view,
};
use crate::connection::remote_input_policy::is_numlock_conflict_scancode;
use crate::connection::types::{
    event_view, events_view, ConnectionEvent, ConnectionInput, Event, Input, KeyboardIndicators,
    RemoteInput,
};
use crate::remote_display::display::{updates_view, FrameUpdate, Update};
use crate::remote_display::pixels::{rows_read, Area};
use crate::text::{decimal, push_decimal, text_bytes};
use ironrdp_input::Database;
use vstd::prelude::*;
use vstd::utf8::encode_utf8;

verus! {

/// How many milliseconds lie between two frames at least.
pub const FRAME_INTERVAL_MS: u64 = 16;

/// After how many milliseconds what has not been shown is shown, whatever comes.
pub const FLUSH_INTERVAL_MS: u64 = 50;

/// The narrowest and the widest desktop that is asked for.
pub const DESKTOP_MIN: u32 = 200;

pub const DESKTOP_MAX: u32 = 8192;

/// Whether a number is that of a character: no half of a surrogate pair, and not too large.
pub open spec fn is_scalar(n: u32) -> bool {
    n < 0xd800 || 0xe000 <= n <= 0x10ffff
}

/// `char::from_u32`: the character with the given number, where there is one.
pub assume_specification[ char::from_u32 ](i: u32) -> (c: Option<char>)
    ensures
        c == (if is_scalar(i) {
            Some(i as char)
        } else {
            None
        }),
;

/// A rectangle of the screen, right and bottom included.
#[derive(Debug, Clone, Copy, PartialEq, Eq, Structural)]
pub struct ScreenRect {
    pub left: u16,
    pub top: u16,
    pub right: u16,
    pub bottom: u16,
}

/// The lesser of two numbers.
pub open spec fn least(a: u16, b: u16) -> u16 {
    if a <= b {
        a
    } else {
        b
    }
}

/// The greater of two numbers.
pub open spec fn greatest(a: u16, b: u16) -> u16 {
    if a >= b {
        a
    } else {
        b
    }
}

impl ScreenRect {
    /// The smallest rectangle around two.
    pub open spec fn merged(self, other: ScreenRect) -> ScreenRect {
        ScreenRect {
            left: least(self.left, other.left),
            top: least(self.top, other.top),
            right: greatest(self.right, other.right),
            bottom: greatest(self.bottom, other.bottom),
        }
    }

    /// Whether a rectangle holds a place.
    pub open spec fn holds(self, x: u16, y: u16) -> bool {
        self.left <= x <= self.right && self.top <= y <= self.bottom
    }

    /// The rows of the rectangle.
    pub open spec fn rows(self) -> int {
        if self.bottom < self.top {
            0
        } else {
            self.bottom - self.top + 1
        }
    }

    /// The rectangle in an image that is `stride` bytes wide.
    pub open spec fn area(self, stride: int) -> Area {
        Area {
            stride,
            x: self.left as int,
            y: self.top as int,
            width: places(self.left, self.right) as int,
            height: self.rows(),
        }
    }
}

/// Whether an image holds all rows of an area.
pub open spec fn holds_rows(image: Seq<u8>, area: Area, rows: int) -> bool {
    forall|row: int|
        0 <= row < rows ==> #[trigger] area.row_start(row) + 4 * area.width <= image.len()
}

/// The change that shows a rectangle of an image, where the image has four bytes per pixel and
/// holds the rectangle.
pub open spec fn image_update(
    image: Seq<u8>,
    stride: int,
    bytes_per_pixel: int,
    rect: ScreenRect,
) -> Option<Update> {
    let width = places(rect.left, rect.right);
    let height = places(rect.top, rect.bottom);
    let area = rect.area(stride);
    if width == 0 || height == 0 || bytes_per_pixel != 4 || !holds_rows(image, area, rect.rows()) {
        None
    } else {
        Some(
            Update::Rect {
                x: rect.left,
                y: rect.top,
                width,
                height,
                rgba: rows_read(image, area, rect.rows()),
            },
        )
    }
}

/// The smallest rectangle around two.
pub fn merge_rect(a: ScreenRect, b: ScreenRect) -> (r: ScreenRect)
    ensures
        r == a.merged(b),
{
    ScreenRect {
        left: if a.left <= b.left {
            a.left
        } else {
            b.left
        },
        top: if a.top <= b.top {
            a.top
        } else {
            b.top
        },
        right: if a.right >= b.right {
            a.right
        } else {
            b.right
        },
        bottom: if a.bottom >= b.bottom {
            a.bottom
        } else {
            b.bottom
        },
    }
}

/// The change that shows a rectangle of an image.
pub fn rect_update_from_image(
    image: &[u8],
    stride: usize,
    bytes_per_pixel: usize,
    rect: ScreenRect,
) -> (update: Option<FrameUpdate>)
    ensures
        update_view(update) == image_update(
            image@,
            stride as int,
            bytes_per_pixel as int,
            rect,
        ),
{
    let width: u16 = count_places(rect.left, rect.right);
    let height: u16 = count_places(rect.top, rect.bottom);
    if width == 0 || height == 0 || bytes_per_pixel != 4 {
        return None;
    }
    let ghost area = rect.area(stride as int);
    let rows: u32 = if rect.bottom < rect.top {
        0
    } else {
        rect.bottom as u32 - rect.top as u32 + 1
    };
    let row_bytes: u128 = 4 * width as u128;
    let mut packed: Vec<u8> = Vec::new();
    let mut row: u32 = 0;
    while row < rows
        invariant
            row <= rows,
            rows == rect.rows(),
            rows <= 65536,
            area == rect.area(stride as int),
            row_bytes == 4 * area.width,
            width != 0,
            height != 0,
            width == places(rect.left, rect.right),
            height == places(rect.top, rect.bottom),
            bytes_per_pixel == 4,
            holds_rows(image@, area, row as int),
            packed@ == rows_read(image@, area, row as int),
        decreases rows - row,
    {
        assert(0 <= (rect.top + row) * stride <= 131072 * 0xffff_ffff_ffff_ffff)
            by (nonlinear_arith)
            requires
                0 <= rect.top + row <= 131072,
                0 <= stride <= 0xffff_ffff_ffff_ffff,
        ;
        let at: u128 = (rect.top as u128 + row as u128) * stride as u128 + 4 * rect.left as u128;
        assert(at == area.row_start(row as int));
        if at + row_bytes > image.len() as u128 {
            assert(!holds_rows(image@, area, rect.rows()));
            return None;
        }
        let start: usize = at as usize;
        let count: usize = row_bytes as usize;
        let ghost before = packed@;
        let mut k: usize = 0;
        assert(packed@ =~= before + image@.subrange(start as int, start as int));
        while k < count
            invariant
                k <= count,
                start + count <= image.len(),
                packed@ == before + image@.subrange(start as int, start + k),
            decreases count - k,
        {
            packed.push(image[start + k]);
            k = k + 1;
            assert(packed@ =~= before + image@.subrange(start as int, start + k));
        }
        row = row + 1;
    }
    Some(FrameUpdate::Rect { x: rect.left, y: rect.top, width, height, rgba: packed })
}

/// What the worker has to send to the server.
#[derive(Debug)]
pub enum RdpAction {
    /// Ask for another size of the desktop.
    Resize { width: u32, height: u32 },
    /// Tell the state of the lock keys. If that fails, nothing is lost.
    Sync(WireEvent),
    /// Send input events. If that fails, the session has ended.
    Send(Vec<WireEvent>),
}

/// What the worker has to send, as a mathematical value.
#[verifier::ext_equal]
pub enum Act {
    Resize { width: u32, height: u32 },
    Sync(WireEvent),
    Send(Seq<WireEvent>),
}

impl View for RdpAction {
    type V = Act;

    open spec fn view(&self) -> Act {
        match *self {
            RdpAction::Resize { width, height } => Act::Resize { width, height },
            RdpAction::Sync(event) => Act::Sync(event),
            RdpAction::Send(events) => Act::Send(events@),
        }
    }
}

/// Actions as mathematical values.
pub open spec fn acts(actions: Seq<RdpAction>) -> Seq<Act> {
    Seq::new(actions.len(), |i: int| actions[i]@)
}

/// A key or mouse operation.
#[derive(Debug, Clone, Copy, PartialEq, Eq, Structural)]
pub enum InputOperation {
    Key(KeyOperation),
    Mouse(MouseOperation),
}

/// A dimension of the desktop, within what is asked for.
pub open spec fn desktop_size(n: u16) -> u32 {
    if n < DESKTOP_MIN {
        DESKTOP_MIN
    } else if n > DESKTOP_MAX {
        DESKTOP_MAX
    } else {
        n as u32
    }
}

/// The operation of an input. Halves of surrogate pairs have none.
pub open spec fn operation(input: RemoteInput) -> Option<InputOperation> {
    match input {
        RemoteInput::KeyboardScancode { code, extended, down } => Some(
            InputOperation::Key(
                if down {
                    KeyOperation::Pressed { extended, code }
                } else {
                    KeyOperation::Released { extended, code }
                },
            ),
        ),
        RemoteInput::KeyboardUnicode { codepoint, down } => if !is_scalar(codepoint as u32) {
            None
        } else {
            Some(
                InputOperation::Key(
                    if down {
                        KeyOperation::UnicodePressed(codepoint as char)
                    } else {
                        KeyOperation::UnicodeReleased(codepoint as char)
                    },
                ),
            )
        },
        RemoteInput::MouseMove { x, y } => Some(
            InputOperation::Mouse(MouseOperation::Move { x, y }),
        ),
        RemoteInput::MouseButton { button, down } => Some(
            InputOperation::Mouse(
                if down {
                    MouseOperation::ButtonPressed(button)
                } else {
                    MouseOperation::ButtonReleased(button)
                },
            ),
        ),
        RemoteInput::MouseWheel { delta } => Some(
            InputOperation::Mouse(
                MouseOperation::Wheel { is_vertical: true, rotation_units: delta },
            ),
        ),
        RemoteInput::MouseHorizontalWheel { delta } => Some(
            InputOperation::Mouse(
                MouseOperation::Wheel { is_vertical: false, rotation_units: delta },
            ),
        ),
    }
}

/// The modifier keys, in the order in which they are released.
pub open spec fn modifier_keys() -> Seq<(bool, u8)> {
    seq![
        (false, 0x2au8),
        (false, 0x36u8),
        (false, 0x1du8),
        (true, 0x1du8),
        (false, 0x38u8),
        (true, 0x38u8),
        (true, 0x5bu8),
        (true, 0x5cu8),
    ]
}

/// The sending of events, where there are any.
pub open spec fn sent(events: Seq<WireEvent>) -> Seq<Act> {
    if events.len() == 0 {
        Seq::empty()
    } else {
        seq![Act::Send(events)]
    }
}

/// What is held after the release of keys.
pub open spec fn without_keys(h: Held, keys: Seq<(bool, u8)>) -> Held
    decreases keys.len(),
{
    if keys.len() == 0 {
        h
    } else {
        let (extended, code) = keys.last();
        without_keys(h, keys.drop_last()).after_key(KeyOperation::Released { extended, code })
    }
}

/// What the release of keys sends.
pub open spec fn releases(h: Held, keys: Seq<(bool, u8)>) -> Seq<Act>
    decreases keys.len(),
{
    if keys.len() == 0 {
        Seq::empty()
    } else {
        let (extended, code) = keys.last();
        releases(h, keys.drop_last()) + sent(
            without_keys(h, keys.drop_last()).key_events(
                KeyOperation::Released { extended, code },
            ),
        )
    }
}

/// The state of the worker as a mathematical value.
#[verifier::ext_equal]
pub struct Worker {
    pub held: Held,
    pub locks: Option<KeyboardIndicators>,
    pub pending: Option<ScreenRect>,
    pub updates: u64,
    pub responses: u64,
    pub pdus: u64,
}

/// The number after `n`, around the end of the range.
pub open spec fn next(n: u64) -> u64 {
    if n == u64::MAX {
        0
    } else {
        (n + 1) as u64
    }
}

impl Worker {
    /// When the session has started.
    pub open spec fn fresh() -> Worker {
        Worker {
            held: Held::nothing(),
            locks: None,
            pending: None,
            updates: 0,
            responses: 0,
            pdus: 0,
        }
    }

    /// After an operation.
    pub open spec fn applied(self, op: InputOperation) -> Worker {
        match op {
            InputOperation::Key(key) => Worker { held: self.held.after_key(key), ..self },
            InputOperation::Mouse(mouse) => Worker { held: self.held.after_mouse(mouse), ..self },
        }
    }

    /// What an operation sends.
    pub open spec fn operation_acts(self, op: InputOperation) -> Seq<Act> {
        match op {
            InputOperation::Key(key) => sent(self.held.key_events(key)),
            InputOperation::Mouse(mouse) => sent(self.held.mouse_events(mouse)),
        }
    }

    /// After an input.
    pub open spec fn after_input(self, input: Input) -> Worker {
        match input {
            Input::SyncKeyboardIndicators(locks) => Worker { locks: Some(locks), ..self },
            Input::ReleaseAllModifiers => Worker {
                held: without_keys(self.held, modifier_keys()),
                ..self
            },
            Input::RemoteInput(remote) => match operation(remote) {
                Some(op) => self.applied(op),
                None => self,
            },
            _ => self,
        }
    }

    /// Whether the lock keys are told before an input: before the press of a key that means
    /// another key without the number lock.
    pub open spec fn presyncs(input: Input) -> bool {
        match input {
            Input::RemoteInput(RemoteInput::KeyboardScancode { code, down, .. }) => {
                &&& down
                &&& 0x47 <= code <= 0x53
                &&& code != 0x4a
                &&& code != 0x4e
            },
            _ => false,
        }
    }

    /// What tells the state of the lock keys, where it is known.
    pub open spec fn sync_acts(self) -> Seq<Act> {
        match self.locks {
            Some(locks) => seq![Act::Sync(sync_event(locks))],
            None => Seq::empty(),
        }
    }

    /// What an input sends.
    pub open spec fn input_acts(self, input: Input) -> Seq<Act> {
        let before = if Worker::presyncs(input) {
            self.sync_acts()
        } else {
            Seq::empty()
        };
        before + (match input {
            Input::Data(_) => Seq::empty(),
            Input::Resize { cols, rows } => seq![
                Act::Resize { width: desktop_size(cols), height: desktop_size(rows) },
            ],
            Input::SyncKeyboardIndicators(locks) => seq![Act::Sync(sync_event(locks))],
            Input::ReleaseAllModifiers => releases(self.held, modifier_keys()),
            Input::RemoteInput(remote) => match operation(remote) {
                Some(op) => self.operation_acts(op),
                None => Seq::empty(),
            },
        })
    }

    /// With one more changed rectangle that has not been shown.
    pub open spec fn absorbed(self, rect: ScreenRect) -> Worker {
        Worker {
            pending: Some(
                match self.pending {
                    Some(before) => before.merged(rect),
                    None => rect,
                },
            ),
            ..self
        }
    }

    /// After a changed rectangle that the session reports.
    pub open spec fn updated(self, rect: ScreenRect, since_ms: u64) -> Worker {
        let seen = Worker { updates: next(self.updates), ..self.absorbed(rect) };
        if since_ms >= FRAME_INTERVAL_MS {
            Worker { pending: None, ..seen }
        } else {
            seen
        }
    }

    /// The event that shows what has not been shown yet.
    pub open spec fn shown(self, image: Seq<u8>, stride: int, bytes_per_pixel: int) -> Option<
        Event,
    > {
        match self.pending {
            Some(rect) => match image_update(image, stride, bytes_per_pixel, rect) {
                Some(update) => Some(Event::Frames(seq![update])),
                None => None,
            },
            None => None,
        }
    }

    /// Whether what has not been shown is shown at the end of a round.
    pub open spec fn flushes(self, since_ms: u64) -> bool {
        self.updates > 0 && since_ms >= FLUSH_INTERVAL_MS
    }
}

/// What the passing of time or a changed rectangle calls for: whether the time to the next frame
/// starts anew, and the frame to be shown.
#[derive(Debug)]
pub struct DueFrame {
    pub restarts_timer: bool,
    pub event: Option<ConnectionEvent>,
}

/// The state of the worker.
pub struct RdpWorker {
    pub input_db: Database,
    /// The lock keys as they were last reported.
    pub last_indicators: Option<KeyboardIndicators>,
    /// What changed and has not been shown.
    pub pending_rect: Option<ScreenRect>,
    pub graphics_updates: u64,
    pub response_frames: u64,
    pub processed_pdus: u64,
}

impl View for RdpWorker {
    type V = Worker;

    open spec fn view(&self) -> Worker {
        Worker {
            held: held(self.input_db),
            locks: self.last_indicators,
            pending: self.pending_rect,
            updates: self.graphics_updates,
            responses: self.response_frames,
            pdus: self.processed_pdus,
        }
    }
}

/// The operation of an input.
pub fn operation_of(input: RemoteInput) -> (op: Option<InputOperation>)
    ensures
        op == operation(input),
{
    match input {
        RemoteInput::KeyboardScancode { code, extended, down } => {
            if down {
                Some(InputOperation::Key(KeyOperation::Pressed { extended, code }))
            } else {
                Some(InputOperation::Key(KeyOperation::Released { extended, code }))
            }
        },
        RemoteInput::KeyboardUnicode { codepoint, down } => {
            match char::from_u32(codepoint as u32) {
                Some(c) => if down {
                    Some(InputOperation::Key(KeyOperation::UnicodePressed(c)))
                } else {
                    Some(InputOperation::Key(KeyOperation::UnicodeReleased(c)))
                },
                None => None,
            }
        },
        RemoteInput::MouseMove { x, y } => Some(
            InputOperation::Mouse(MouseOperation::Move { x, y }),
        ),
        RemoteInput::MouseButton { button, down } => {
            if down {
                Some(InputOperation::Mouse(MouseOperation::ButtonPressed(button)))
            } else {
                Some(InputOperation::Mouse(MouseOperation::ButtonReleased(button)))
            }
        },
        RemoteInput::MouseWheel { delta } => Some(
            InputOperation::Mouse(
                MouseOperation::Wheel { is_vertical: true, rotation_units: delta },
            ),
        ),
        RemoteInput::MouseHorizontalWheel { delta } => Some(
            InputOperation::Mouse(
                MouseOperation::Wheel { is_vertical: false, rotation_units: delta },
            ),
        ),
    }
}

/// Whether the lock keys are told before an input.
pub fn should_presync_keyboard_input(input: &ConnectionInput) -> (b: bool)
    ensures
        b == Worker::presyncs(input@),
{
    match input {
        ConnectionInput::RemoteInput(RemoteInput::KeyboardScancode { code, down, .. }) => {
            *down && is_numlock_conflict_scancode(*code)
        },
        _ => false,
    }
}

/// A dimension of the desktop, within what is asked for.
fn clamp_desktop(n: u16) -> (size: u32)
    ensures
        size == desktop_size(n),
{
    let wide: u32 = n as u32;
    if wide < DESKTOP_MIN {
        DESKTOP_MIN
    } else if wide > DESKTOP_MAX {
        DESKTOP_MAX
    } else {
        wide
    }
}

/// Appends an action to a list.
fn push_act(actions: &mut Vec<RdpAction>, action: RdpAction)
    ensures
        acts(final(actions)@) == acts(old(actions)@) + seq![action@],
{
    let ghost before = acts(actions@);
    let ghost added = action@;
    actions.push(action);
    assert(acts(actions@) =~= before + seq![added]);
}

/// Appends the sending of events to a list, where there are any.
fn push_sent(actions: &mut Vec<RdpAction>, events: Vec<WireEvent>)
    ensures
        acts(final(actions)@) == acts(old(actions)@) + sent(events@),
{
    if events.len() > 0 {
        push_act(actions, RdpAction::Send(events));
    } else {
        assert(acts(actions@) =~= acts(actions@) + Seq::<Act>::empty());
    }
}

impl RdpWorker {
    /// The worker when the session has started.
    pub fn new() -> (w: Self)
        ensures
            w@ == Worker::fresh(),
    {
        RdpWorker {
            input_db: new_database(),
            last_indicators: None,
            pending_rect: None,
            graphics_updates: 0,
            response_frames: 0,
            processed_pdus: 0,
        }
    }

    /// What tells the state of the lock keys, where it is known.
    fn push_sync(&self, actions: &mut Vec<RdpAction>)
        ensures
            acts(final(actions)@) == acts(old(actions)@) + self@.sync_acts(),
    {
        if let Some(locks) = self.last_indicators {
            push_act(actions, RdpAction::Sync(lock_event(locks)));
        } else {
            assert(acts(actions@) =~= acts(actions@) + Seq::<Act>::empty());
        }
    }

    /// Performs an operation.
    fn push_operation(&mut self, actions: &mut Vec<RdpAction>, op: InputOperation)
        requires
            op matches InputOperation::Key(KeyOperation::UnicodePressed(c)) ==> c as int <= 0xffff,
            op matches InputOperation::Key(KeyOperation::UnicodeReleased(c)) ==> c as int <= 0xffff,
        ensures
            final(self)@ == old(self)@.applied(op),
            acts(final(actions)@) == acts(old(actions)@) + old(self)@.operation_acts(op),
    {
        let events = match op {
            InputOperation::Key(key) => apply_key(&mut self.input_db, &key),
            InputOperation::Mouse(mouse) => apply_mouse(&mut self.input_db, &mouse),
        };
        push_sent(actions, events);
    }

    /// Releases the modifier keys.
    fn push_releases(&mut self, actions: &mut Vec<RdpAction>)
        ensures
            final(self)@ == old(self)@.after_input(Input::ReleaseAllModifiers),
            acts(final(actions)@) == acts(old(actions)@) + releases(
                old(self)@.held,
                modifier_keys(),
            ),
    {
        let keys: [(bool, u8); 8] = [
            (false, 0x2a),
            (false, 0x36),
            (false, 0x1d),
            (true, 0x1d),
            (false, 0x38),
            (true, 0x38),
            (true, 0x5b),
            (true, 0x5c),
        ];
        let ghost first = acts(actions@);
        let ghost h = self@.held;
        assert(keys@ =~= modifier_keys());
        assert(acts(actions@) =~= first + releases(h, keys@.take(0)));
        let mut i: usize = 0;
        while i < 8
            invariant
                i <= 8,
                keys@ == modifier_keys(),
                keys@.len() == 8,
                self@ == (Worker {
                    held: without_keys(h, keys@.take(i as int)),
                    ..old(self)@
                }),
                acts(actions@) == first + releases(h, keys@.take(i as int)),
            decreases 8 - i,
        {
            let (extended, code) = keys[i];
            let ghost upto = releases(h, keys@.take(i as int));
            assert(keys@.take(i + 1).drop_last() =~= keys@.take(i as int));
            assert(keys@.take(i + 1).last() == keys@[i as int]);
            let events = apply_key(
                &mut self.input_db,
                &KeyOperation::Released { extended, code },
            );
            push_sent(actions, events);
            assert(first + upto + sent(events@) =~= first + (upto + sent(events@)));
            i = i + 1;
        }
        assert(keys@.take(8) =~= modifier_keys());
    }

    /// Takes an input.
    pub fn handle_rdp_input(&mut self, input: &ConnectionInput) -> (actions: Vec<RdpAction>)
        ensures
            final(self)@ == old(self)@.after_input(input@),
            acts(actions@) == old(self)@.input_acts(input@),
    {
        let mut actions: Vec<RdpAction> = Vec::new();
        assert(acts(actions@) =~= Seq::empty());
        if should_presync_keyboard_input(input) {
            self.push_sync(&mut actions);
            assert(acts(actions@) =~= self@.sync_acts());
        }
        let ghost before = acts(actions@);
        match input {
            ConnectionInput::Data(_) => {
                assert(before =~= before + Seq::<Act>::empty());
            },
            ConnectionInput::Resize { cols, rows } => {
                push_act(
                    &mut actions,
                    RdpAction::Resize { width: clamp_desktop(*cols), height: clamp_desktop(*rows) },
                );
            },
            ConnectionInput::SyncKeyboardIndicators(locks) => {
                self.last_indicators = Some(*locks);
                push_act(&mut actions, RdpAction::Sync(lock_event(*locks)));
            },
            ConnectionInput::ReleaseAllModifiers => {
                self.push_releases(&mut actions);
            },
            ConnectionInput::RemoteInput(remote) => {
                match operation_of(*remote) {
                    Some(op) => {
                        self.push_operation(&mut actions, op);
                    },
                    None => {
                        assert(before =~= before + Seq::<Act>::empty());
                    },
                }
            },
        }
        actions
    }

    /// Tells the lock keys to a session that was activated anew.
    pub fn reactivated(&self) -> (actions: Vec<RdpAction>)
        ensures
            acts(actions@) == self@.sync_acts(),
    {
        let mut actions: Vec<RdpAction> = Vec::new();
        self.push_sync(&mut actions);
        assert(acts(actions@) =~= self@.sync_acts());
        actions
    }

    /// Counts a message from the server.
    pub fn pdu_read(&mut self)
        ensures
            final(self)@ == (Worker { pdus: next(old(self)@.pdus), ..old(self)@ }),
    {
        self.processed_pdus = self.processed_pdus.wrapping_add(1);
    }

    /// Counts a response that was sent.
    pub fn response_sent(&mut self)
        ensures
            final(self)@ == (Worker { responses: next(old(self)@.responses), ..old(self)@ }),
    {
        self.response_frames = self.response_frames.wrapping_add(1);
    }

    /// Adds a changed rectangle to what has not been shown.
    pub fn absorb_rect(&mut self, rect: ScreenRect)
        ensures
            final(self)@ == old(self)@.absorbed(rect),
    {
        self.pending_rect = Some(
            match self.pending_rect {
                Some(before) => merge_rect(before, rect),
                None => rect,
            },
        );
    }

    /// Takes what has not been shown, as an event that shows it.
    fn take_shown(&mut self, image: &[u8], stride: usize, bytes_per_pixel: usize) -> (event: Option<
        ConnectionEvent,
    >)
        ensures
            final(self)@ == (Worker { pending: None, ..old(self)@ }),
            event_view(event) == old(self)@.shown(image@, stride as int, bytes_per_pixel as int),
    {
        let pending = self.pending_rect;
        self.pending_rect = None;
        match pending {
            Some(rect) => match rect_update_from_image(image, stride, bytes_per_pixel, rect) {
                Some(update) => {
                    let ghost shown = update@;
                    let mut frames: Vec<FrameUpdate> = Vec::new();
                    frames.push(update);
                    assert(updates_view(frames@) =~= seq![shown]);
                    Some(ConnectionEvent::Frames(frames))
                },
                None => None,
            },
            None => None,
        }
    }

    /// Takes a changed rectangle that the session reports, `since_ms` milliseconds after the last
    /// frame.
    pub fn graphics_update(
        &mut self,
        rect: ScreenRect,
        since_ms: u64,
        image: &[u8],
        stride: usize,
        bytes_per_pixel: usize,
    ) -> (frame: DueFrame)
        ensures
            final(self)@ == old(self)@.updated(rect, since_ms),
            frame.restarts_timer == (since_ms >= FRAME_INTERVAL_MS),
            event_view(frame.event) == (if since_ms >= FRAME_INTERVAL_MS {
                old(self)@.absorbed(rect).shown(image@, stride as int, bytes_per_pixel as int)
            } else {
                None
            }),
    {
        self.graphics_updates = self.graphics_updates.wrapping_add(1);
        self.absorb_rect(rect);
        if since_ms >= FRAME_INTERVAL_MS {
            let event = self.take_shown(image, stride, bytes_per_pixel);
            DueFrame { restarts_timer: true, event }
        } else {
            DueFrame { restarts_timer: false, event: None }
        }
    }

    /// Ends a round, `since_ms` milliseconds after the last frame.
    pub fn end_round(
        &mut self,
        since_ms: u64,
        image: &[u8],
        stride: usize,
        bytes_per_pixel: usize,
    ) -> (frame: DueFrame)
        ensures
            frame.restarts_timer == old(self)@.flushes(since_ms),
            old(self)@.flushes(since_ms) ==> final(self)@ == (Worker {
                pending: None,
                ..old(self)@
            }) && event_view(frame.event) == old(self)@.shown(
                image@,
                stride as int,
                bytes_per_pixel as int,
            ),
            !old(self)@.flushes(since_ms) ==> final(self)@ == old(self)@ && frame.event is None,
    {
        if self.graphics_updates > 0 && since_ms >= FLUSH_INTERVAL_MS {
            let event = self.take_shown(image, stride, bytes_per_pixel);
            DueFrame { restarts_timer: true, event }
        } else {
            DueFrame { restarts_timer: false, event: None }
        }
    }

    /// What is told when the server ends the session.
    pub fn terminated(&self, reason: &str) -> (message: Vec<u8>)
        ensures
            message@ == encode_utf8(
                "\r\n[RDP] terminated: "@ + reason@ + " (pdus="@ + decimal(self@.pdus as nat)
                    + ", updates="@ + decimal(self@.updates as nat) + ", responses="@ + decimal(
                    self@.responses as nat,
                ) + ")\r\n"@,
            ),
    {
        let mut text = String::from_str("\r\n[RDP] terminated: ").concat(reason).concat(" (pdus=");
        push_decimal(&mut text, self.processed_pdus);
        let mut text = text.concat(", updates=");
        push_decimal(&mut text, self.graphics_updates);
        let mut text = text.concat(", responses=");
        push_decimal(&mut text, self.response_frames);
        let text = text.concat(")\r\n");
        text_bytes(text.as_str())
    }
}

/// What becomes of a message that the session could not process: outside the fast path it may be
/// a bitmap update.
pub fn unprocessed(is_x224: bool, payload: &[u8]) -> (event: Option<ConnectionEvent>)
    ensures
        event_view(event) == (if is_x224 && slowpath_updates(payload@).len() > 0 {
            Some(Event::Frames(slowpath_updates(payload@)))
        } else {
            None
        }),
{
    if is_x224 {
        let updates = try_handle_slowpath_bitmap(payload);
        assert(updates@.len() == updates_view(updates@).len());
        if updates.len() > 0 {
            return Some(ConnectionEvent::Frames(updates));
        }
    }
    None
}

/// What has come of connecting.
#[derive(Debug)]
pub enum RdpHandshake {
    /// The session stands, and takes inputs on the channel with this number.
    Completed { channel: u64, width: u16, height: u16 },
    /// There is no session; the text says why.
    Failed(String),
}

/// The words about a session that has started.
pub open spec fn connected_words(host: Seq<char>, port: u16, width: u16, height: u16) -> Seq<char> {
    "\r\n[RDP] IronRDP handshake completed: server="@ + host + " port="@ + decimal(port as nat)
        + " desktop="@ + decimal(width as nat) + "x"@ + decimal(height as nat) + "\r\n"@
}

/// The first events of a session: that it stands and where, or else nothing but the error.
pub fn handshake_events(host: &str, port: u16, handshake: RdpHandshake) -> (events: Vec<
    ConnectionEvent,
>)
    ensures
        events_view(events@) == (match handshake {
            RdpHandshake::Completed { channel, width, height } => seq![
                Event::Connected(channel),
                Event::Data(encode_utf8(connected_words(host@, port, width, height))),
            ],
            RdpHandshake::Failed(reason) => seq![Event::Error(reason@)],
        }),
{
    let mut events: Vec<ConnectionEvent> = Vec::new();
    match handshake {
        RdpHandshake::Completed { channel, width, height } => {
            events.push(ConnectionEvent::Connected(channel));
            events.push(ConnectionEvent::Data(connected_message(host, port, width, height)));
            assert(events_view(events@) =~= seq![
                Event::Connected(channel),
                Event::Data(encode_utf8(connected_words(host@, port, width, height))),
            ]);
        },
        RdpHandshake::Failed(reason) => {
            events.push(ConnectionEvent::Error(reason));
            assert(events_view(events@) =~= seq![Event::Error(reason@)]);
        },
    }
    events
}

/// What is shown when a session has started.
pub fn connected_message(host: &str, port: u16, width: u16, height: u16) -> (message: Vec<u8>)
    ensures
        message@ == encode_utf8(connected_words(host@, port, width, height)),
{
    let mut text = String::from_str("\r\n[RDP] IronRDP handshake completed: server=").concat(
        host,
    ).concat(" port=");
    push_decimal(&mut text, port as u64);
    let mut text = text.concat(" desktop=");
    push_decimal(&mut text, width as u64);
    let mut text = text.concat("x");
    push_decimal(&mut text, height as u64);
    let text = text.concat("\r\n");
    text_bytes(text.as_str())
}

/// What is told when the last part of connecting fails: that the logon was refused, or that
/// something else went wrong.
pub fn finalize_failure(is_credssp: bool, reason: &str) -> (message: String)
    ensures
        message@ == (if is_credssp {
            "NLA 인증 실패: "@
        } else {
            "connect_finalize failed: "@
        }) + reason@,
{
    let words = if is_credssp {
        "NLA 인증 실패: "
    } else {
        "connect_finalize failed: "
    };
    String::from_str(words).concat(reason)
}

/// What is shown when no more inputs can come.
pub fn closed_message() -> (message: Vec<u8>)
    ensures
        message@ == encode_utf8("\r\n[RDP] input channel closed; stopping RDP worker.\r\n"@),
{
    text_bytes("\r\n[RDP] input channel closed; stopping RDP worker.\r\n")
}

/// Merging loses no place of either rectangle.
pub proof fn merging_loses_nothing(a: ScreenRect, b: ScreenRect, x: u16, y: u16)
    requires
        a.holds(x, y) || b.holds(x, y),
    ensures
        a.merged(b).holds(x, y),
{
}

/// What the session reports as changed stays to be shown until a frame shows it: before the frame
/// interval has passed, the pending rectangle holds every place of every report.
pub proof fn reports_wait_for_a_frame(w: Worker, rect: ScreenRect, since_ms: u64, x: u16, y: u16)
    requires
        rect.holds(x, y) || (w.pending is Some && w.pending->0.holds(x, y)),
    ensures
        since_ms < FRAME_INTERVAL_MS ==> {
            &&& w.updated(rect, since_ms).pending is Some
            &&& w.updated(rect, since_ms).pending->0.holds(x, y)
        },
        since_ms >= FRAME_INTERVAL_MS ==> w.absorbed(rect).pending->0.holds(x, y),
{
}

/// After `ReleaseAllModifiers` no modifier key is held, and no other key has changed.
pub proof fn released_modifiers_are_up(w: Worker, extended: bool, code: u8)
    ensures
        ({
            let after = w.after_input(Input::ReleaseAllModifiers).held;
            &&& modifier_keys().contains((extended, code)) ==> !after.keys.contains(
                (extended, code),
            )
            &&& !modifier_keys().contains((extended, code)) ==> (after.keys.contains(
                (extended, code),
            ) == w.held.keys.contains((extended, code)))
            &&& after.chars == w.held.chars
            &&& after.buttons == w.held.buttons
        }),
{
    lemma_without_keys(w.held, modifier_keys(), (extended, code));
}

proof fn lemma_without_keys(h: Held, keys: Seq<(bool, u8)>, key: (bool, u8))
    ensures
        without_keys(h, keys).keys.contains(key) == (h.keys.contains(key) && !keys.contains(key)),
        without_keys(h, keys).chars == h.chars,
        without_keys(h, keys).buttons == h.buttons,
    decreases keys.len(),
{
    if keys.len() > 0 {
        lemma_without_keys(h, keys.drop_last(), key);
        assert(keys =~= keys.drop_last().push(keys.last()));
        if keys.contains(key) && key != keys.last() {
            let i = choose|i: int| 0 <= i < keys.len() && keys[i] == key;
            assert(keys.drop_last()[i] == key);
        }
        if keys.drop_last().contains(key) {
            let i = choose|i: int| 0 <= i < keys.len() - 1 && keys.drop_last()[i] == key;
            assert(keys[i] == key);
        }
        if key == keys.last() {
            assert(keys[keys.len() - 1] == key);
        }
    }
}

} // verus!
