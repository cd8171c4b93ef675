//! Keys and mouse actions as RDP input events. IronRDP's input database remembers what is held
//! down, and decides which events an action calls for.
use crate::connection::types::{KeyboardIndicators, RemoteMouseButton};
use ironrdp::pdu::input::fast_path::FastPathInputEvent;
use ironrdp_input::{
    synchronize_event, Database, MouseButton, MousePosition, Operation, Scancode, WheelRotations,
};
use vstd::prelude::*;

verus! {

/// IronRDP's memory of the keys and buttons that are held down.
#[verifier::external_type_specification]
#[verifier::external_body]
pub struct ExDatabase(Database);

/// A key that goes down or up, by its scancode or by its character.
#[derive(Debug, Clone, Copy, PartialEq, Eq, Structural)]
pub enum KeyOperation {
    Pressed { extended: bool, code: u8 },
    Released { extended: bool, code: u8 },
    UnicodePressed(char),
    UnicodeReleased(char),
}

/// What the mouse does.
#[derive(Debug, Clone, Copy, PartialEq, Eq, Structural)]
pub enum MouseOperation {
    ButtonPressed(RemoteMouseButton),
    ButtonReleased(RemoteMouseButton),
    Move { x: u16, y: u16 },
    Wheel { is_vertical: bool, rotation_units: i16 },
}

/// An input event of the protocol, with its flags as bits.
#[derive(Debug, Clone, Copy, PartialEq, Eq, Structural)]
pub enum WireEvent {
    Key { flags: u8, code: u8 },
    Unicode { flags: u8, code: u16 },
    Mouse { flags: u16, rotation_units: i16, x: u16, y: u16 },
    Sync { flags: u8 },
    /// An event of another kind.
    Other,
}

/// What is held down, and where the mouse is.
#[verifier::ext_equal]
pub struct Held {
    pub keys: Set<(bool, u8)>,
    pub chars: Set<char>,
    pub buttons: Set<RemoteMouseButton>,
    pub x: u16,
    pub y: u16,
}

/// What a database remembers. Each key comes with whether its scancode is an extended one.
pub uninterp spec fn held(db: Database) -> Held;

/// The flag of a mouse button.
pub open spec fn button_flag(button: RemoteMouseButton) -> u16 {
    match button {
        RemoteMouseButton::Left => 0x1000,
        RemoteMouseButton::Right => 0x2000,
        RemoteMouseButton::Middle => 0x4000,
    }
}

/// The event of a key by scancode. Bit 0 says that it goes up, bit 1 that it is extended.
pub open spec fn key_event(extended: bool, code: u8, up: bool) -> WireEvent {
    WireEvent::Key {
        flags: if extended && up {
            3
        } else if extended {
            2
        } else if up {
            1
        } else {
            0
        },
        code,
    }
}

/// The event of a key by character, where 16 bits hold it.
pub open spec fn char_event(c: char, up: bool) -> WireEvent {
    WireEvent::Unicode {
        flags: if up {
            1
        } else {
            0
        },
        code: c as u16,
    }
}

impl Held {
    /// Before the first operation.
    pub open spec fn nothing() -> Held {
        Held { keys: Set::empty(), chars: Set::empty(), buttons: Set::empty(), x: 0, y: 0 }
    }

    /// What is held after a key operation.
    pub open spec fn after_key(self, op: KeyOperation) -> Held {
        match op {
            KeyOperation::Pressed { extended, code } => Held {
                keys: self.keys.insert((extended, code)),
                ..self
            },
            KeyOperation::Released { extended, code } => Held {
                keys: self.keys.remove((extended, code)),
                ..self
            },
            KeyOperation::UnicodePressed(c) => Held { chars: self.chars.insert(c), ..self },
            KeyOperation::UnicodeReleased(c) => Held { chars: self.chars.remove(c), ..self },
        }
    }

    /// The events of a key operation. A key that is down already goes up first; one that is not
    /// down is not released.
    pub open spec fn key_events(self, op: KeyOperation) -> Seq<WireEvent> {
        match op {
            KeyOperation::Pressed { extended, code } => if self.keys.contains((extended, code)) {
                seq![key_event(extended, code, true), key_event(extended, code, false)]
            } else {
                seq![key_event(extended, code, false)]
            },
            KeyOperation::Released { extended, code } => if self.keys.contains((extended, code)) {
                seq![key_event(extended, code, true)]
            } else {
                Seq::empty()
            },
            KeyOperation::UnicodePressed(c) => if self.chars.contains(c) {
                seq![char_event(c, true), char_event(c, false)]
            } else {
                seq![char_event(c, false)]
            },
            KeyOperation::UnicodeReleased(c) => if self.chars.contains(c) {
                seq![char_event(c, true)]
            } else {
                Seq::empty()
            },
        }
    }

    /// What is held after a mouse operation.
    pub open spec fn after_mouse(self, op: MouseOperation) -> Held {
        match op {
            MouseOperation::ButtonPressed(b) => Held { buttons: self.buttons.insert(b), ..self },
            MouseOperation::ButtonReleased(b) => Held { buttons: self.buttons.remove(b), ..self },
            MouseOperation::Move { x, y } => Held { x, y, ..self },
            MouseOperation::Wheel { .. } => self,
        }
    }

    /// A mouse event where the mouse is.
    pub open spec fn mouse_event(self, flags: u16, rotation_units: i16) -> WireEvent {
        WireEvent::Mouse { flags, rotation_units, x: self.x, y: self.y }
    }

    /// The events of a mouse operation. What changes nothing has none, but for turns of the wheel.
    pub open spec fn mouse_events(self, op: MouseOperation) -> Seq<WireEvent> {
        match op {
            MouseOperation::ButtonPressed(b) => if self.buttons.contains(b) {
                Seq::empty()
            } else {
                seq![self.mouse_event((0x8000 + button_flag(b)) as u16, 0)]
            },
            MouseOperation::ButtonReleased(b) => if self.buttons.contains(b) {
                seq![self.mouse_event(button_flag(b), 0)]
            } else {
                Seq::empty()
            },
            MouseOperation::Move { x, y } => if x == self.x && y == self.y {
                Seq::empty()
            } else {
                seq![self.after_mouse(op).mouse_event(0x0800, 0)]
            },
            MouseOperation::Wheel { is_vertical, rotation_units } => seq![
                self.mouse_event(
                    if is_vertical {
                        0x0200
                    } else {
                        0x0400
                    },
                    rotation_units,
                ),
            ],
        }
    }
}

/// Calls `ironrdp_input::Database::new`: nothing is held down, and the mouse is in the corner.
#[verifier::external_body]
pub(crate) fn new_database() -> (db: Database)
    ensures
        held(db) == Held::nothing(),
{
    Database::new()
}

/// Calls `ironrdp_input::Database::apply` with one key operation. The database remembers the key,
/// and the events are those of the keys that change. Characters are those that 16 bits hold.
#[verifier::external_body]
pub(crate) fn apply_key(db: &mut Database, op: &KeyOperation) -> (events: Vec<WireEvent>)
    requires
        op matches KeyOperation::UnicodePressed(c) ==> c as int <= 0xffff,
        op matches KeyOperation::UnicodeReleased(c) ==> c as int <= 0xffff,
    ensures
        held(*final(db)) == held(*old(db)).after_key(*op),
        events@ == held(*old(db)).key_events(*op),
{
    let operation = match *op {
        KeyOperation::Pressed { extended, code } => Operation::KeyPressed(Scancode::from_u8(extended, code)),
        KeyOperation::Released { extended, code } => Operation::KeyReleased(Scancode::from_u8(extended, code)),
        KeyOperation::UnicodePressed(c) => Operation::UnicodeKeyPressed(c),
        KeyOperation::UnicodeReleased(c) => Operation::UnicodeKeyReleased(c),
    };
    db.apply([operation]).iter().map(|event| match event {
        FastPathInputEvent::KeyboardEvent(flags, code) => WireEvent::Key { flags: flags.bits(), code: *code },
        FastPathInputEvent::UnicodeKeyboardEvent(flags, code) => WireEvent::Unicode { flags: flags.bits(), code: *code },
        _ => WireEvent::Other,
    }).collect()
}

/// Calls `ironrdp_input::Database::apply` with one mouse operation. The database remembers the
/// button or the place, and the events are those of what changes.
#[verifier::external_body]
pub(crate) fn apply_mouse(db: &mut Database, op: &MouseOperation) -> (events: Vec<WireEvent>)
    ensures
        held(*final(db)) == held(*old(db)).after_mouse(*op),
        events@ == held(*old(db)).mouse_events(*op),
{
    let named = |button| match button { RemoteMouseButton::Left => MouseButton::Left,
        RemoteMouseButton::Right => MouseButton::Right, RemoteMouseButton::Middle => MouseButton::Middle };
    let operation = match *op {
        MouseOperation::ButtonPressed(button) => Operation::MouseButtonPressed(named(button)),
        MouseOperation::ButtonReleased(button) => Operation::MouseButtonReleased(named(button)),
        MouseOperation::Move { x, y } => Operation::MouseMove(MousePosition { x, y }),
        MouseOperation::Wheel { is_vertical, rotation_units } => Operation::WheelRotations(
            WheelRotations { is_vertical, rotation_units }),
    };
    db.apply([operation]).iter().map(|event| match event {
        FastPathInputEvent::MouseEvent(m) => WireEvent::Mouse { flags: m.flags.bits(),
            rotation_units: m.number_of_wheel_rotation_units, x: m.x_position, y: m.y_position },
        _ => WireEvent::Other,
    }).collect()
}

/// The event that tells a server the state of the lock keys.
pub open spec fn sync_event(locks: KeyboardIndicators) -> WireEvent {
    WireEvent::Sync {
        flags: ((if locks.scroll_lock {
            1int
        } else {
            0
        }) + (if locks.num_lock {
            2int
        } else {
            0
        }) + (if locks.caps_lock {
            4int
        } else {
            0
        })) as u8,
    }
}

/// Calls `ironrdp_input::synchronize_event` without the Kana lock. The flags of the event are 1 for
/// the scroll lock, 2 for the number lock and 4 for the capitals lock.
#[verifier::external_body]
pub(crate) fn lock_event(locks: KeyboardIndicators) -> (event: WireEvent)
    ensures
        event == sync_event(locks),
{
    match synchronize_event(locks.scroll_lock, locks.num_lock, locks.caps_lock, false) {
        FastPathInputEvent::SyncEvent(flags) => WireEvent::Sync { flags: flags.bits() },
        _ => WireEvent::Other,
    }
}

/// After a release nothing is left of a press: neither in what is held nor, in a second release,
/// on the wire.
pub proof fn released_keys_are_forgotten(h: Held, extended: bool, code: u8)
    ensures
        ({
            let up = KeyOperation::Released { extended, code };
            let after = h.after_key(KeyOperation::Pressed { extended, code }).after_key(up);
            &&& after.keys == h.keys.remove((extended, code))
            &&& after.key_events(up) == Seq::<WireEvent>::empty()
        }),
{
    assert(h.keys.insert((extended, code)).remove((extended, code)) =~= h.keys.remove(
        (extended, code),
    ));
}

} // verus!
