//! Which events of the window system matter, and as what.
use crate::app::message::Message;
use crate::app::model::SessionKind;
use crate::app::state::{Model, State};
use crate::connection::keyboard::{Code, Key, Modifiers, Named};
use crate::connection::remote_input_policy::{
    is_remote_secure_attention_shortcut, pressed, released, route_key_pressed, route_key_released,
    RoutedKeyEvent,
};
use crate::connection::types::{RemoteInput, RemoteMouseButton};
use crate::text::{same_text, text_bytes};
use vstd::prelude::*;
use vstd::utf8::encode_utf8;

verus! {

/// An event of the window system. Positions are whole pixels, and turns of the wheel are in units
/// of which a notch has 120.
#[derive(Debug, Clone)]
pub enum UiEvent {
    ButtonPressed(RemoteMouseButton),
    ButtonReleased(RemoteMouseButton),
    CursorMoved { x: u16, y: u16 },
    WheelScrolled { horizontal: i16, vertical: i16 },
    WindowResized { width: u32, height: u32 },
    WindowFocused,
    WindowUnfocused,
    WindowOpened(u64),
    ImePreedit(String),
    ImeCommit(String),
    KeyPressed {
        key: Key,
        text: Option<String>,
        physical_key: Option<Code>,
        numpad: bool,
        modifiers: Modifiers,
    },
    KeyReleased { key: Key, physical_key: Option<Code>, modifiers: Modifiers },
}

/// What is heard of an event: the message without its containers.
#[verifier::ext_equal]
pub enum Heard {
    ResizeFinished,
    WindowSizeChanged(u32, u32),
    SyncIndicators,
    ReleaseModifiers,
    TabPressed(bool),
    CloseMenuDeferred,
    WindowIdCaptured(u64),
    ImePreedit(Seq<char>),
    ImeCommit(Seq<char>),
    TryHandleKey(Key, Modifiers),
    TerminalInput(Seq<u8>),
    SecureAttention(bool),
    RemoteInput(RemoteInput),
    /// A message that no event leads to.
    Other,
}

/// What a message says.
pub open spec fn heard(message: Message) -> Heard {
    match message {
        Message::ResizeFinished => Heard::ResizeFinished,
        Message::WindowSizeChanged(w, h) => Heard::WindowSizeChanged(w, h),
        Message::SyncRemoteKeyboardIndicators => Heard::SyncIndicators,
        Message::ReleaseRemoteModifiers => Heard::ReleaseModifiers,
        Message::TabPressed(shift) => Heard::TabPressed(shift),
        Message::CloseMenuDeferred => Heard::CloseMenuDeferred,
        Message::WindowIdCaptured(id) => Heard::WindowIdCaptured(id),
        Message::ImePreedit(text) => Heard::ImePreedit(text@),
        Message::ImeCommit(text) => Heard::ImeCommit(text@),
        Message::TryHandleKey(key, modifiers) => Heard::TryHandleKey(key, modifiers),
        Message::TerminalInput(bytes) => Heard::TerminalInput(bytes@),
        Message::RemoteSecureAttention(active) => Heard::SecureAttention(active),
        Message::RemoteDisplayInput(input) => Heard::RemoteInput(input),
        _ => Heard::Other,
    }
}

/// Messages as what they say.
pub open spec fn all_heard(messages: Seq<Message>) -> Seq<Heard> {
    Seq::new(messages.len(), |i: int| heard(messages[i]))
}

/// An optional message as what it says.
pub open spec fn maybe_heard(message: Option<Message>) -> Option<Heard> {
    match message {
        Some(m) => Some(heard(m)),
        None => None,
    }
}

/// An optional text as a mathematical value.
pub open spec fn string_view(text: Option<String>) -> Option<Seq<char>> {
    match text {
        Some(t) => Some(t@),
        None => None,
    }
}

/// What every page hears: the end of a resize, and changes of the window.
pub open spec fn window_heard(event: UiEvent) -> Option<Heard> {
    match event {
        UiEvent::ButtonReleased(RemoteMouseButton::Left) => Some(Heard::ResizeFinished),
        UiEvent::WindowResized { width, height } => Some(Heard::WindowSizeChanged(width, height)),
        UiEvent::WindowFocused => Some(Heard::SyncIndicators),
        UiEvent::WindowUnfocused => Some(Heard::ReleaseModifiers),
        _ => None,
    }
}

/// What the welcome page hears: the tabulator, and the escape key as one.
pub open spec fn form_heard(event: UiEvent) -> Option<Heard> {
    match event {
        UiEvent::KeyPressed { key, modifiers, .. } => if key == Key::Named(Named::Tab) {
            Some(Heard::TabPressed(modifiers.shift))
        } else if key == Key::Named(Named::Escape) {
            Some(Heard::TabPressed(false))
        } else {
            None
        },
        _ => None,
    }
}

/// What an open menu hears: a click that nothing else took.
pub open spec fn menu_heard(event: UiEvent, taken: bool) -> Option<Heard> {
    match event {
        UiEvent::ButtonPressed(RemoteMouseButton::Left) => if taken {
            None
        } else {
            Some(Heard::CloseMenuDeferred)
        },
        _ => None,
    }
}

/// Whether a character can come from the number pad.
pub open spec fn is_numpad_char(c: char) -> bool {
    ||| '0' <= c <= '9'
    ||| c == '.'
    ||| c == '-'
    ||| c == '+'
    ||| c == '*'
    ||| c == '/'
}

/// Whether a text comes from the number pad.
pub open spec fn is_numpad_text(text: Seq<char>) -> bool {
    text.len() > 0 && forall|i: int| 0 <= i < text.len() ==> is_numpad_char(#[trigger] text[i])
}

/// Whether a text is made of ASCII characters.
pub open spec fn is_ascii_text(text: Seq<char>) -> bool {
    forall|i: int| 0 <= i < text.len() ==> (#[trigger] text[i]) as int <= 127
}

/// The bytes of a key with a name.
pub open spec fn named_bytes(named: Named) -> Seq<u8> {
    match named {
        Named::Enter => seq![13u8],
        Named::Backspace => seq![127u8],
        Named::Tab => seq![9u8],
        Named::ArrowUp => seq![27u8, 91u8, 65u8],
        Named::ArrowDown => seq![27u8, 91u8, 66u8],
        Named::ArrowRight => seq![27u8, 91u8, 67u8],
        Named::ArrowLeft => seq![27u8, 91u8, 68u8],
        Named::Home => seq![27u8, 91u8, 72u8],
        Named::End => seq![27u8, 91u8, 70u8],
        Named::Delete => seq![27u8, 91u8, 51u8, 126u8],
        Named::PageUp => seq![27u8, 91u8, 53u8, 126u8],
        Named::PageDown => seq![27u8, 91u8, 54u8, 126u8],
        Named::Escape => seq![27u8],
        _ => Seq::empty(),
    }
}

/// The bytes that a key sends to a terminal. Digits and signs of the number pad come as they are;
/// keys with a name as their sequence; all others as their text, where it is ASCII.
pub open spec fn key_bytes(key: Key, text: Option<Seq<char>>, numpad: bool) -> Seq<u8> {
    if numpad && text is Some && is_numpad_text(text->0) {
        encode_utf8(text->0)
    } else {
        let named = match key {
            Key::Named(n) => named_bytes(n),
            _ => Seq::empty(),
        };
        if named.len() > 0 {
            named
        } else if text is Some && is_ascii_text(text->0) {
            encode_utf8(text->0)
        } else {
            Seq::empty()
        }
    }
}

/// Whether a key has a meaning of its own in a terminal: copying, pasting or escaping.
pub open spec fn is_own_key(key: Key, modifiers: Modifiers) -> bool {
    match key {
        Key::Character(c) => modifiers.control && (c@ == "c"@ || c@ == "C"@ || c@ == "v"@ || c@
            == "V"@),
        Key::Named(n) => n == Named::Escape,
        _ => false,
    }
}

/// What a terminal hears: composed text, and keys.
pub open spec fn terminal_heard(event: UiEvent) -> Option<Heard> {
    match event {
        UiEvent::ImePreedit(text) => Some(Heard::ImePreedit(text@)),
        UiEvent::ImeCommit(text) => Some(Heard::ImeCommit(text@)),
        UiEvent::KeyPressed { key, text, numpad, modifiers, .. } => if is_own_key(key, modifiers) {
            Some(Heard::TryHandleKey(key, modifiers))
        } else {
            let bytes = key_bytes(key, string_view(text), numpad);
            if bytes.len() == 0 {
                None
            } else {
                Some(Heard::TerminalInput(bytes))
            }
        },
        _ => None,
    }
}

/// What a routed key says.
pub open spec fn routed_heard(routed: RoutedKeyEvent) -> Option<Heard> {
    match routed {
        RoutedKeyEvent::Ignore => None,
        RoutedKeyEvent::SyncIndicators => Some(Heard::SyncIndicators),
        RoutedKeyEvent::Input(input) => Some(Heard::RemoteInput(input)),
    }
}

/// Whether a key stands for the secure attention sequence.
pub open spec fn is_attention(physical_key: Option<Code>, modifiers: Modifiers) -> bool {
    modifiers.control && modifiers.alt && physical_key == Some(Code::End)
}

/// What a remote desktop hears: keys, and of the mouse what nothing else took, but for its moves.
pub open spec fn remote_heard(event: UiEvent, taken: bool) -> Option<Heard> {
    match event {
        UiEvent::ImeCommit(text) => Some(Heard::ImeCommit(text@)),
        UiEvent::KeyPressed { key, text, physical_key, modifiers, .. } => if is_attention(
            physical_key,
            modifiers,
        ) {
            Some(Heard::SecureAttention(true))
        } else {
            routed_heard(pressed(key, string_view(text), physical_key))
        },
        UiEvent::KeyReleased { key, physical_key, modifiers } => if is_attention(
            physical_key,
            modifiers,
        ) {
            Some(Heard::SecureAttention(false))
        } else {
            routed_heard(released(key, physical_key))
        },
        UiEvent::CursorMoved { x, y } => Some(Heard::RemoteInput(RemoteInput::MouseMove { x, y })),
        UiEvent::ButtonPressed(button) => if taken {
            None
        } else {
            Some(Heard::RemoteInput(RemoteInput::MouseButton { button, down: true }))
        },
        UiEvent::ButtonReleased(button) => if taken {
            None
        } else {
            Some(Heard::RemoteInput(RemoteInput::MouseButton { button, down: false }))
        },
        UiEvent::WheelScrolled { horizontal, vertical } => if taken {
            None
        } else if vertical != 0 {
            Some(Heard::RemoteInput(RemoteInput::MouseWheel { delta: vertical }))
        } else if horizontal != 0 {
            Some(Heard::RemoteInput(RemoteInput::MouseHorizontalWheel { delta: horizontal }))
        } else {
            None
        },
        _ => None,
    }
}

/// What a listener adds to what was heard.
pub open spec fn also(before: Seq<Heard>, more: Option<Heard>) -> Seq<Heard> {
    match more {
        Some(h) => before.push(h),
        None => before,
    }
}

impl Model {
    /// Whether a menu is open.
    pub open spec fn menu_open(self) -> bool {
        self.menu is Some && self.menu->0.len() > 0
    }

    /// What an open menu hears.
    pub open spec fn menu_part(self, event: UiEvent, taken: bool) -> Option<Heard> {
        if self.menu_open() {
            menu_heard(event, taken)
        } else {
            None
        }
    }

    /// What is heard of the window itself, as long as it is not known.
    pub open spec fn opened_part(self, event: UiEvent) -> Option<Heard> {
        match event {
            UiEvent::WindowOpened(id) => if self.window is None {
                Some(Heard::WindowIdCaptured(id))
            } else {
                None
            },
            _ => None,
        }
    }

    /// What is heard of an event: which listeners there are depends on the tab that is shown.
    pub open spec fn hears(self, event: UiEvent, taken: bool) -> Seq<Heard> {
        let none = Seq::<Heard>::empty();
        let kind = self.current().kind;
        let page = if kind == SessionKind::Welcome {
            also(also(also(none, form_heard(event)), window_heard(event)), self.menu_part(event, taken))
        } else if kind == SessionKind::Terminal {
            also(
                also(also(none, terminal_heard(event)), window_heard(event)),
                self.menu_part(event, taken),
            )
        } else {
            also(
                also(also(none, window_heard(event)), self.menu_part(event, taken)),
                remote_heard(event, taken),
            )
        };
        also(page, self.opened_part(event))
    }
}

/// What every page makes of an event.
pub fn window_message(event: &UiEvent) -> (message: Option<Message>)
    ensures
        maybe_heard(message) == window_heard(*event),
{
    match event {
        UiEvent::ButtonReleased(RemoteMouseButton::Left) => Some(Message::ResizeFinished),
        UiEvent::WindowResized { width, height } => Some(
            Message::WindowSizeChanged(*width, *height),
        ),
        UiEvent::WindowFocused => Some(Message::SyncRemoteKeyboardIndicators),
        UiEvent::WindowUnfocused => Some(Message::ReleaseRemoteModifiers),
        _ => None,
    }
}

/// What the welcome page makes of an event.
pub fn form_message(event: &UiEvent) -> (message: Option<Message>)
    ensures
        maybe_heard(message) == form_heard(*event),
{
    match event {
        UiEvent::KeyPressed { key, modifiers, .. } => match key {
            Key::Named(Named::Tab) => Some(Message::TabPressed(modifiers.shift)),
            Key::Named(Named::Escape) => Some(Message::TabPressed(false)),
            _ => None,
        },
        _ => None,
    }
}

/// What an open menu makes of an event.
pub fn menu_message(event: &UiEvent, taken: bool) -> (message: Option<Message>)
    ensures
        maybe_heard(message) == menu_heard(*event, taken),
{
    match event {
        UiEvent::ButtonPressed(RemoteMouseButton::Left) => {
            if taken {
                None
            } else {
                Some(Message::CloseMenuDeferred)
            }
        },
        _ => None,
    }
}

/// Whether a text comes from the number pad.
fn numpad_text(text: &str) -> (b: bool)
    ensures
        b == is_numpad_text(text@),
{
    let n: usize = text.unicode_len();
    let mut i: usize = 0;
    while i < n
        invariant
            i <= n,
            n == text@.len(),
            forall|k: int| 0 <= k < i ==> is_numpad_char(#[trigger] text@[k]),
        decreases n - i,
    {
        let c: char = text.get_char(i);
        if !(('0' <= c && c <= '9') || c == '.' || c == '-' || c == '+' || c == '*' || c == '/') {
            assert(!is_numpad_char(text@[i as int]));
            return false;
        }
        i = i + 1;
    }
    n > 0
}

/// Whether a text is made of ASCII characters.
fn ascii_text(text: &str) -> (b: bool)
    ensures
        b == is_ascii_text(text@),
{
    let n: usize = text.unicode_len();
    let mut i: usize = 0;
    while i < n
        invariant
            i <= n,
            n == text@.len(),
            forall|k: int| 0 <= k < i ==> (#[trigger] text@[k]) as int <= 127,
        decreases n - i,
    {
        if text.get_char(i) as u32 > 127 {
            assert(text@[i as int] as int > 127);
            return false;
        }
        i = i + 1;
    }
    true
}

/// The bytes of a key with a name.
fn name_bytes(named: Named) -> (bytes: Vec<u8>)
    ensures
        bytes@ == named_bytes(named),
{
    let bytes: Vec<u8> = match named {
        Named::Enter => vec![13],
        Named::Backspace => vec![127],
        Named::Tab => vec![9],
        Named::ArrowUp => vec![27, 91, 65],
        Named::ArrowDown => vec![27, 91, 66],
        Named::ArrowRight => vec![27, 91, 67],
        Named::ArrowLeft => vec![27, 91, 68],
        Named::Home => vec![27, 91, 72],
        Named::End => vec![27, 91, 70],
        Named::Delete => vec![27, 91, 51, 126],
        Named::PageUp => vec![27, 91, 53, 126],
        Named::PageDown => vec![27, 91, 54, 126],
        Named::Escape => vec![27],
        _ => Vec::new(),
    };
    assert(bytes@ =~= named_bytes(named));
    bytes
}

/// The bytes that a key sends to a terminal.
pub fn terminal_key_bytes(key: &Key, text: &Option<String>, numpad: bool) -> (bytes: Vec<u8>)
    ensures
        bytes@ == key_bytes(*key, string_view(*text), numpad),
{
    if numpad {
        if let Some(t) = text {
            if numpad_text(t.as_str()) {
                return text_bytes(t.as_str());
            }
        }
    }
    let named: Vec<u8> = match key {
        Key::Named(n) => name_bytes(*n),
        _ => Vec::new(),
    };
    if named.len() > 0 {
        return named;
    }
    if let Some(t) = text {
        if ascii_text(t.as_str()) {
            return text_bytes(t.as_str());
        }
    }
    Vec::new()
}

/// Whether a key has a meaning of its own in a terminal.
fn own_key(key: &Key, modifiers: Modifiers) -> (b: bool)
    ensures
        b == is_own_key(*key, modifiers),
{
    match key {
        Key::Character(c) => modifiers.control && (same_text(c.as_str(), "c") || same_text(
            c.as_str(),
            "C",
        ) || same_text(c.as_str(), "v") || same_text(c.as_str(), "V")),
        Key::Named(n) => *n == Named::Escape,
        _ => false,
    }
}

/// What a terminal makes of an event.
pub fn terminal_message(event: UiEvent) -> (message: Option<Message>)
    ensures
        maybe_heard(message) == terminal_heard(event),
{
    match event {
        UiEvent::ImePreedit(text) => Some(Message::ImePreedit(text)),
        UiEvent::ImeCommit(text) => Some(Message::ImeCommit(text)),
        UiEvent::KeyPressed { key, text, numpad, modifiers, .. } => {
            if own_key(&key, modifiers) {
                return Some(Message::TryHandleKey(key, modifiers));
            }
            let bytes = terminal_key_bytes(&key, &text, numpad);
            if bytes.len() == 0 {
                None
            } else {
                Some(Message::TerminalInput(bytes))
            }
        },
        _ => None,
    }
}

/// What a routed key says.
fn routed_message(routed: RoutedKeyEvent) -> (message: Option<Message>)
    ensures
        maybe_heard(message) == routed_heard(routed),
{
    match routed {
        RoutedKeyEvent::Ignore => None,
        RoutedKeyEvent::SyncIndicators => Some(Message::SyncRemoteKeyboardIndicators),
        RoutedKeyEvent::Input(input) => Some(Message::RemoteDisplayInput(input)),
    }
}

/// What a remote desktop makes of an event.
pub fn remote_message(event: UiEvent, taken: bool) -> (message: Option<Message>)
    ensures
        maybe_heard(message) == remote_heard(event, taken),
{
    match event {
        UiEvent::ImeCommit(text) => Some(Message::ImeCommit(text)),
        UiEvent::KeyPressed { key, text, physical_key, modifiers, .. } => {
            if is_remote_secure_attention_shortcut(physical_key, modifiers) {
                return Some(Message::RemoteSecureAttention(true));
            }
            let text: Option<&str> = match &text {
                Some(t) => Some(t.as_str()),
                None => None,
            };
            routed_message(route_key_pressed(&key, text, physical_key))
        },
        UiEvent::KeyReleased { key, physical_key, modifiers } => {
            if is_remote_secure_attention_shortcut(physical_key, modifiers) {
                return Some(Message::RemoteSecureAttention(false));
            }
            routed_message(route_key_released(&key, physical_key))
        },
        UiEvent::CursorMoved { x, y } => Some(
            Message::RemoteDisplayInput(RemoteInput::MouseMove { x, y }),
        ),
        UiEvent::ButtonPressed(button) => {
            if taken {
                None
            } else {
                Some(
                    Message::RemoteDisplayInput(
                        RemoteInput::MouseButton { button, down: true },
                    ),
                )
            }
        },
        UiEvent::ButtonReleased(button) => {
            if taken {
                None
            } else {
                Some(
                    Message::RemoteDisplayInput(
                        RemoteInput::MouseButton { button, down: false },
                    ),
                )
            }
        },
        UiEvent::WheelScrolled { horizontal, vertical } => {
            if taken {
                None
            } else if vertical != 0 {
                Some(Message::RemoteDisplayInput(RemoteInput::MouseWheel { delta: vertical }))
            } else if horizontal != 0 {
                Some(
                    Message::RemoteDisplayInput(
                        RemoteInput::MouseHorizontalWheel { delta: horizontal },
                    ),
                )
            } else {
                None
            }
        },
        _ => None,
    }
}

/// Adds what a listener made of an event.
fn add_message(messages: &mut Vec<Message>, message: Option<Message>)
    ensures
        all_heard(final(messages)@) == also(all_heard(old(messages)@), maybe_heard(message)),
{
    if let Some(m) = message {
        let ghost before = all_heard(messages@);
        let ghost added = heard(m);
        messages.push(m);
        assert(all_heard(messages@) =~= before.push(added));
    }
}

/// What the window makes of the event that it was opened, as long as it is not known.
fn opened_message(state: &State, event: &UiEvent) -> (message: Option<Message>)
    ensures
        maybe_heard(message) == state@.opened_part(*event),
{
    match event {
        UiEvent::WindowOpened(id) => {
            if state.window_id.is_none() {
                Some(Message::WindowIdCaptured(*id))
            } else {
                None
            }
        },
        _ => None,
    }
}

/// The messages that an event of the window system leads to. `taken` says whether something else
/// took the event already.
pub fn subscription(state: &State, event: UiEvent, taken: bool) -> (messages: Vec<Message>)
    requires
        state@.wf(),
    ensures
        all_heard(messages@) == state@.hears(event, taken),
{
    let kind = state.sessions[state.active_index].kind;
    let window = window_message(&event);
    let opened = opened_message(state, &event);
    let open: bool = match state.dummy_menu_open {
        Some(menu) => menu.unicode_len() > 0,
        None => false,
    };
    let menu = if open {
        menu_message(&event, taken)
    } else {
        None
    };
    let mut messages: Vec<Message> = Vec::new();
    assert(all_heard(messages@) =~= Seq::empty());
    if kind == SessionKind::Welcome {
        add_message(&mut messages, form_message(&event));
        add_message(&mut messages, window);
        add_message(&mut messages, menu);
    } else if kind == SessionKind::Terminal {
        add_message(&mut messages, terminal_message(event));
        add_message(&mut messages, window);
        add_message(&mut messages, menu);
    } else {
        add_message(&mut messages, window);
        add_message(&mut messages, menu);
        add_message(&mut messages, remote_message(event, taken));
    }
    add_message(&mut messages, opened);
    messages
}

/// Plain ASCII text that a key without a name gives reaches the terminal byte by byte.
pub proof fn plain_text_is_typed(c: String, text: Seq<char>, numpad: bool)
    requires
        is_ascii_text(text),
    ensures
        key_bytes(Key::Character(c), Some(text), numpad) == encode_utf8(text),
{
}

/// No key reaches a page that it is not meant for: neither do keys go to a terminal on the welcome
/// page, nor to the form while a terminal is shown.
pub proof fn pages_hear_their_own_keys(m: Model, event: UiEvent, taken: bool, i: int)
    requires
        event is KeyPressed,
        0 <= i < m.hears(event, taken).len(),
    ensures
        m.current().kind == SessionKind::Welcome ==> m.hears(event, taken)[i] is TabPressed,
        m.current().kind == SessionKind::Terminal ==> m.hears(event, taken)[i] is TerminalInput
            || m.hears(event, taken)[i] is TryHandleKey,
{
}

} // verus!
