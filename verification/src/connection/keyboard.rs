//! Keys, as far as the program tells them apart.
use vstd::prelude::*;

verus! {

/// A key by its place on the keyboard.
#[derive(Debug, Clone, Copy, PartialEq, Eq, Structural)]
pub enum Code {
    Backquote,
    Digit1,
    Digit2,
    Digit3,
    Digit4,
    Digit5,
    Digit6,
    Digit7,
    Digit8,
    Digit9,
    Digit0,
    Minus,
    Equal,
    KeyQ,
    KeyW,
    KeyE,
    KeyR,
    KeyT,
    KeyY,
    KeyU,
    KeyI,
    KeyO,
    KeyP,
    BracketLeft,
    BracketRight,
    KeyA,
    KeyS,
    KeyD,
    KeyF,
    KeyG,
    KeyH,
    KeyJ,
    KeyK,
    KeyL,
    Semicolon,
    Quote,
    Backslash,
    KeyZ,
    KeyX,
    KeyC,
    KeyV,
    KeyB,
    KeyN,
    KeyM,
    Comma,
    Period,
    Slash,
    Space,
    Numpad0,
    Numpad1,
    Numpad2,
    Numpad3,
    Numpad4,
    Numpad5,
    Numpad6,
    Numpad7,
    Numpad8,
    Numpad9,
    NumpadDecimal,
    NumpadComma,
    NumpadAdd,
    NumpadSubtract,
    NumpadMultiply,
    NumpadDivide,
    NumpadEnter,
    ShiftLeft,
    ShiftRight,
    ControlLeft,
    ControlRight,
    AltLeft,
    AltRight,
    SuperLeft,
    SuperRight,
    Enter,
    Backspace,
    Tab,
    Escape,
    ArrowUp,
    ArrowDown,
    ArrowLeft,
    ArrowRight,
    Home,
    End,
    PageUp,
    PageDown,
    Insert,
    Delete,
    F1,
    F2,
    F3,
    F4,
    F5,
    F6,
    F7,
    F8,
    F9,
    F10,
    F11,
    F12,
    CapsLock,
    NumLock,
    ScrollLock,
    /// Any other key.
    Other,
}

/// A key with a name of its own.
#[derive(Debug, Clone, Copy, PartialEq, Eq, Structural)]
pub enum Named {
    Enter,
    Backspace,
    Tab,
    Escape,
    ArrowUp,
    ArrowDown,
    ArrowRight,
    ArrowLeft,
    Home,
    End,
    Delete,
    PageUp,
    PageDown,
    CapsLock,
    NumLock,
    ScrollLock,
    /// Any other key.
    Other,
}

/// A key by what it means in the present layout.
#[derive(Debug, Clone)]
pub enum Key {
    Named(Named),
    Character(String),
    Unidentified,
}

/// The modifier keys that are held.
#[derive(Debug, Clone, Copy, PartialEq, Eq, Structural)]
pub struct Modifiers {
    pub shift: bool,
    pub control: bool,
    pub alt: bool,
}

/// The scancode of a key, and whether it is an extended one.
pub open spec fn scancode(code: Code) -> Option<(u8, bool)> {
    match code {
        Code::Backquote => Some((0x29, false)),
        Code::Digit1 => Some((0x02, false)),
        Code::Digit2 => Some((0x03, false)),
        Code::Digit3 => Some((0x04, false)),
        Code::Digit4 => Some((0x05, false)),
        Code::Digit5 => Some((0x06, false)),
        Code::Digit6 => Some((0x07, false)),
        Code::Digit7 => Some((0x08, false)),
        Code::Digit8 => Some((0x09, false)),
        Code::Digit9 => Some((0x0a, false)),
        Code::Digit0 => Some((0x0b, false)),
        Code::Minus => Some((0x0c, false)),
        Code::Equal => Some((0x0d, false)),
        Code::KeyQ => Some((0x10, false)),
        Code::KeyW => Some((0x11, false)),
        Code::KeyE => Some((0x12, false)),
        Code::KeyR => Some((0x13, false)),
        Code::KeyT => Some((0x14, false)),
        Code::KeyY => Some((0x15, false)),
        Code::KeyU => Some((0x16, false)),
        Code::KeyI => Some((0x17, false)),
        Code::KeyO => Some((0x18, false)),
        Code::KeyP => Some((0x19, false)),
        Code::BracketLeft => Some((0x1a, false)),
        Code::BracketRight => Some((0x1b, false)),
        Code::KeyA => Some((0x1e, false)),
        Code::KeyS => Some((0x1f, false)),
        Code::KeyD => Some((0x20, false)),
        Code::KeyF => Some((0x21, false)),
        Code::KeyG => Some((0x22, false)),
        Code::KeyH => Some((0x23, false)),
        Code::KeyJ => Some((0x24, false)),
        Code::KeyK => Some((0x25, false)),
        Code::KeyL => Some((0x26, false)),
        Code::Semicolon => Some((0x27, false)),
        Code::Quote => Some((0x28, false)),
        Code::Backslash => Some((0x2b, false)),
        Code::KeyZ => Some((0x2c, false)),
        Code::KeyX => Some((0x2d, false)),
        Code::KeyC => Some((0x2e, false)),
        Code::KeyV => Some((0x2f, false)),
        Code::KeyB => Some((0x30, false)),
        Code::KeyN => Some((0x31, false)),
        Code::KeyM => Some((0x32, false)),
        Code::Comma => Some((0x33, false)),
        Code::Period => Some((0x34, false)),
        Code::Slash => Some((0x35, false)),
        Code::Space => Some((0x39, false)),
        Code::Numpad0 => Some((0x52, false)),
        Code::Numpad1 => Some((0x4f, false)),
        Code::Numpad2 => Some((0x50, false)),
        Code::Numpad3 => Some((0x51, false)),
        Code::Numpad4 => Some((0x4b, false)),
        Code::Numpad5 => Some((0x4c, false)),
        Code::Numpad6 => Some((0x4d, false)),
        Code::Numpad7 => Some((0x47, false)),
        Code::Numpad8 => Some((0x48, false)),
        Code::Numpad9 => Some((0x49, false)),
        Code::NumpadDecimal => Some((0x53, false)),
        Code::NumpadComma => Some((0x53, false)),
        Code::NumpadAdd => Some((0x4e, false)),
        Code::NumpadSubtract => Some((0x4a, false)),
        Code::NumpadMultiply => Some((0x37, false)),
        Code::NumpadDivide => Some((0x35, true)),
        Code::NumpadEnter => Some((0x1c, true)),
        Code::ShiftLeft => Some((0x2a, false)),
        Code::ShiftRight => Some((0x36, false)),
        Code::ControlLeft => Some((0x1d, false)),
        Code::ControlRight => Some((0x1d, true)),
        Code::AltLeft => Some((0x38, false)),
        Code::AltRight => Some((0x38, true)),
        Code::SuperLeft => Some((0x5b, true)),
        Code::SuperRight => Some((0x5c, true)),
        Code::Enter => Some((0x1c, false)),
        Code::Backspace => Some((0x0e, false)),
        Code::Tab => Some((0x0f, false)),
        Code::Escape => Some((0x01, false)),
        Code::ArrowUp => Some((0x48, true)),
        Code::ArrowDown => Some((0x50, true)),
        Code::ArrowLeft => Some((0x4b, true)),
        Code::ArrowRight => Some((0x4d, true)),
        Code::Home => Some((0x47, true)),
        Code::End => Some((0x4f, true)),
        Code::PageUp => Some((0x49, true)),
        Code::PageDown => Some((0x51, true)),
        Code::Insert => Some((0x52, true)),
        Code::Delete => Some((0x53, true)),
        Code::F1 => Some((0x3b, false)),
        Code::F2 => Some((0x3c, false)),
        Code::F3 => Some((0x3d, false)),
        Code::F4 => Some((0x3e, false)),
        Code::F5 => Some((0x3f, false)),
        Code::F6 => Some((0x40, false)),
        Code::F7 => Some((0x41, false)),
        Code::F8 => Some((0x42, false)),
        Code::F9 => Some((0x43, false)),
        Code::F10 => Some((0x44, false)),
        Code::F11 => Some((0x57, false)),
        Code::F12 => Some((0x58, false)),
        _ => None,
    }
}

/// The scancode of a key, and whether it is an extended one. `None` stands for a key that has no
/// known place.
pub fn map_key_to_rdp_scancode(physical_key: Option<Code>) -> (r: Option<(u8, bool)>)
    ensures
        r == (match physical_key {
            Some(code) => scancode(code),
            None => None,
        }),
{
    let code = match physical_key {
        Some(code) => code,
        None => return None,
    };
    match code {
        Code::Backquote => Some((0x29, false)),
        Code::Digit1 => Some((0x02, false)),
        Code::Digit2 => Some((0x03, false)),
        Code::Digit3 => Some((0x04, false)),
        Code::Digit4 => Some((0x05, false)),
        Code::Digit5 => Some((0x06, false)),
        Code::Digit6 => Some((0x07, false)),
        Code::Digit7 => Some((0x08, false)),
        Code::Digit8 => Some((0x09, false)),
        Code::Digit9 => Some((0x0a, false)),
        Code::Digit0 => Some((0x0b, false)),
        Code::Minus => Some((0x0c, false)),
        Code::Equal => Some((0x0d, false)),
        Code::KeyQ => Some((0x10, false)),
        Code::KeyW => Some((0x11, false)),
        Code::KeyE => Some((0x12, false)),
        Code::KeyR => Some((0x13, false)),
        Code::KeyT => Some((0x14, false)),
        Code::KeyY => Some((0x15, false)),
        Code::KeyU => Some((0x16, false)),
        Code::KeyI => Some((0x17, false)),
        Code::KeyO => Some((0x18, false)),
        Code::KeyP => Some((0x19, false)),
        Code::BracketLeft => Some((0x1a, false)),
        Code::BracketRight => Some((0x1b, false)),
        Code::KeyA => Some((0x1e, false)),
        Code::KeyS => Some((0x1f, false)),
        Code::KeyD => Some((0x20, false)),
        Code::KeyF => Some((0x21, false)),
        Code::KeyG => Some((0x22, false)),
        Code::KeyH => Some((0x23, false)),
        Code::KeyJ => Some((0x24, false)),
        Code::KeyK => Some((0x25, false)),
        Code::KeyL => Some((0x26, false)),
        Code::Semicolon => Some((0x27, false)),
        Code::Quote => Some((0x28, false)),
        Code::Backslash => Some((0x2b, false)),
        Code::KeyZ => Some((0x2c, false)),
        Code::KeyX => Some((0x2d, false)),
        Code::KeyC => Some((0x2e, false)),
        Code::KeyV => Some((0x2f, false)),
        Code::KeyB => Some((0x30, false)),
        Code::KeyN => Some((0x31, false)),
        Code::KeyM => Some((0x32, false)),
        Code::Comma => Some((0x33, false)),
        Code::Period => Some((0x34, false)),
        Code::Slash => Some((0x35, false)),
        Code::Space => Some((0x39, false)),
        Code::Numpad0 => Some((0x52, false)),
        Code::Numpad1 => Some((0x4f, false)),
        Code::Numpad2 => Some((0x50, false)),
        Code::Numpad3 => Some((0x51, false)),
        Code::Numpad4 => Some((0x4b, false)),
        Code::Numpad5 => Some((0x4c, false)),
        Code::Numpad6 => Some((0x4d, false)),
        Code::Numpad7 => Some((0x47, false)),
        Code::Numpad8 => Some((0x48, false)),
        Code::Numpad9 => Some((0x49, false)),
        Code::NumpadDecimal => Some((0x53, false)),
        Code::NumpadComma => Some((0x53, false)),
        Code::NumpadAdd => Some((0x4e, false)),
        Code::NumpadSubtract => Some((0x4a, false)),
        Code::NumpadMultiply => Some((0x37, false)),
        Code::NumpadDivide => Some((0x35, true)),
        Code::NumpadEnter => Some((0x1c, true)),
        Code::ShiftLeft => Some((0x2a, false)),
        Code::ShiftRight => Some((0x36, false)),
        Code::ControlLeft => Some((0x1d, false)),
        Code::ControlRight => Some((0x1d, true)),
        Code::AltLeft => Some((0x38, false)),
        Code::AltRight => Some((0x38, true)),
        Code::SuperLeft => Some((0x5b, true)),
        Code::SuperRight => Some((0x5c, true)),
        Code::Enter => Some((0x1c, false)),
        Code::Backspace => Some((0x0e, false)),
        Code::Tab => Some((0x0f, false)),
        Code::Escape => Some((0x01, false)),
        Code::ArrowUp => Some((0x48, true)),
        Code::ArrowDown => Some((0x50, true)),
        Code::ArrowLeft => Some((0x4b, true)),
        Code::ArrowRight => Some((0x4d, true)),
        Code::Home => Some((0x47, true)),
        Code::End => Some((0x4f, true)),
        Code::PageUp => Some((0x49, true)),
        Code::PageDown => Some((0x51, true)),
        Code::Insert => Some((0x52, true)),
        Code::Delete => Some((0x53, true)),
        Code::F1 => Some((0x3b, false)),
        Code::F2 => Some((0x3c, false)),
        Code::F3 => Some((0x3d, false)),
        Code::F4 => Some((0x3e, false)),
        Code::F5 => Some((0x3f, false)),
        Code::F6 => Some((0x40, false)),
        Code::F7 => Some((0x41, false)),
        Code::F8 => Some((0x42, false)),
        Code::F9 => Some((0x43, false)),
        Code::F10 => Some((0x44, false)),
        Code::F11 => Some((0x57, false)),
        Code::F12 => Some((0x58, false)),
        _ => None,
    }
}

/// No two keys share a scancode, but for the decimal keys of the number pad.
pub proof fn scancodes_tell_keys_apart(a: Code, b: Code)
    requires
        scancode(a) is Some,
        scancode(a) == scancode(b),
    ensures
        a == b || (scancode(a) == Some((0x53u8, false)) && (a == Code::NumpadDecimal || a
            == Code::NumpadComma) && (b == Code::NumpadDecimal || b == Code::NumpadComma)),
{
}

} // verus!
