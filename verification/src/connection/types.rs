//! Inputs to a connection and events from it.
use crate::remote_display::display::{updates_view, FrameUpdate, Update};
use vstd::prelude::*;

verus! {

/// A mouse button.
#[derive(Debug, Clone, Copy, PartialEq, Eq, Structural)]
pub enum RemoteMouseButton {
    Left,
    Right,
    Middle,
}

/// A keyboard or mouse action for a remote desktop.
#[derive(Debug, Clone, Copy, PartialEq, Eq, Structural)]
pub enum RemoteInput {
    KeyboardScancode { code: u8, extended: bool, down: bool },
    KeyboardUnicode { codepoint: u16, down: bool },
    MouseMove { x: u16, y: u16 },
    MouseButton { button: RemoteMouseButton, down: bool },
    MouseWheel { delta: i16 },
    MouseHorizontalWheel { delta: i16 },
}

/// The state of the lock keys.
#[derive(Debug, Clone, Copy, PartialEq, Eq, Structural)]
pub struct KeyboardIndicators {
    pub scroll_lock: bool,
    pub num_lock: bool,
    pub caps_lock: bool,
}

impl Default for KeyboardIndicators {
    fn default() -> (k: Self)
        ensures
            k == (KeyboardIndicators { scroll_lock: false, num_lock: false, caps_lock: false }),
    {
        KeyboardIndicators { scroll_lock: false, num_lock: false, caps_lock: false }
    }
}

/// What the user interface sends to a connection.
#[derive(Debug, Clone)]
pub enum ConnectionInput {
    Data(Vec<u8>),
    Resize { cols: u16, rows: u16 },
    SyncKeyboardIndicators(KeyboardIndicators),
    ReleaseAllModifiers,
    RemoteInput(RemoteInput),
}

/// What a connection tells the user interface. `Connected` carries the number of the channel on
/// which the connection takes inputs.
#[derive(Debug, Clone)]
pub enum ConnectionEvent {
    Connected(u64),
    Data(Vec<u8>),
    Frames(Vec<FrameUpdate>),
    Disconnected,
    Error(String),
}

/// An input as a mathematical value.
#[verifier::ext_equal]
pub enum Input {
    Data(Seq<u8>),
    Resize { cols: u16, rows: u16 },
    SyncKeyboardIndicators(KeyboardIndicators),
    ReleaseAllModifiers,
    RemoteInput(RemoteInput),
}

impl View for ConnectionInput {
    type V = Input;

    open spec fn view(&self) -> Input {
        match *self {
            ConnectionInput::Data(bytes) => Input::Data(bytes@),
            ConnectionInput::Resize { cols, rows } => Input::Resize { cols, rows },
            ConnectionInput::SyncKeyboardIndicators(k) => Input::SyncKeyboardIndicators(k),
            ConnectionInput::ReleaseAllModifiers => Input::ReleaseAllModifiers,
            ConnectionInput::RemoteInput(r) => Input::RemoteInput(r),
        }
    }
}

/// An event as a mathematical value.
#[verifier::ext_equal]
pub enum Event {
    Connected(u64),
    Data(Seq<u8>),
    Frames(Seq<Update>),
    Disconnected,
    Error(Seq<char>),
}

impl View for ConnectionEvent {
    type V = Event;

    open spec fn view(&self) -> Event {
        match *self {
            ConnectionEvent::Connected(channel) => Event::Connected(channel),
            ConnectionEvent::Data(bytes) => Event::Data(bytes@),
            ConnectionEvent::Frames(frames) => Event::Frames(updates_view(frames@)),
            ConnectionEvent::Disconnected => Event::Disconnected,
            ConnectionEvent::Error(message) => Event::Error(message@),
        }
    }
}

/// An optional event as a mathematical value.
pub open spec fn event_view(event: Option<ConnectionEvent>) -> Option<Event> {
    match event {
        Some(e) => Some(e@),
        None => None,
    }
}

/// Events as mathematical values.
pub open spec fn events_view(events: Seq<ConnectionEvent>) -> Seq<Event> {
    Seq::new(events.len(), |i: int| events[i]@)
}

} // verus!
