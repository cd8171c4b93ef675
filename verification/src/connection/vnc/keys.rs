//! Keys: from scancodes to the key symbols that VNC sends.
use vstd::prelude::*;

verus! {

/// The shift and lock keys as the local keyboard has them.
#[derive(Debug, Clone, Copy, PartialEq, Eq, Structural)]
pub struct VncKeyState {
    pub shift_left: bool,
    pub shift_right: bool,
    pub caps_lock: bool,
    pub num_lock: bool,
    pub scroll_lock: bool,
}

impl Default for VncKeyState {
    fn default() -> (k: Self)
        ensures
            k == (VncKeyState {
                shift_left: false,
                shift_right: false,
                caps_lock: false,
                num_lock: false,
                scroll_lock: false,
            }),
    {
        VncKeyState {
            shift_left: false,
            shift_right: false,
            caps_lock: false,
            num_lock: false,
            scroll_lock: false,
        }
    }
}

/// The key state after a key went down or up: shift keys follow, lock keys flip when they go
/// down.
pub open spec fn key_state_after(k: VncKeyState, code: u8, extended: bool, down: bool) -> VncKeyState {
    if code == 0x2a && !extended {
        VncKeyState { shift_left: down, ..k }
    } else if code == 0x36 && !extended {
        VncKeyState { shift_right: down, ..k }
    } else if code == 0x3a && down {
        VncKeyState { caps_lock: !k.caps_lock, ..k }
    } else if code == 0x45 && !extended && down {
        VncKeyState { num_lock: !k.num_lock, ..k }
    } else if code == 0x46 && down {
        VncKeyState { scroll_lock: !k.scroll_lock, ..k }
    } else {
        k
    }
}

impl VncKeyState {
    /// Whether a shift key is held.
    pub fn shift_active(&self) -> (b: bool)
        ensures
            b == (self.shift_left || self.shift_right),
    {
        self.shift_left || self.shift_right
    }

    /// Follows a key that went down or up.
    pub fn update_from_scancode(&mut self, code: u8, extended: bool, down: bool)
        ensures
            *final(self) == key_state_after(*old(self), code, extended, down),
    {
        if code == 0x2a && !extended {
            self.shift_left = down;
        } else if code == 0x36 && !extended {
            self.shift_right = down;
        } else if code == 0x3a && down {
            self.caps_lock = !self.caps_lock;
        } else if code == 0x45 && !extended && down {
            self.num_lock = !self.num_lock;
        } else if code == 0x46 && down {
            self.scroll_lock = !self.scroll_lock;
        }
    }
}

/// The letter keys.
pub open spec fn letter_key(code: u8) -> Option<char> {
    if code == 0x10 {
        Some('q')
    } else if code == 0x11 {
        Some('w')
    } else if code == 0x12 {
        Some('e')
    } else if code == 0x13 {
        Some('r')
    } else if code == 0x14 {
        Some('t')
    } else if code == 0x15 {
        Some('y')
    } else if code == 0x16 {
        Some('u')
    } else if code == 0x17 {
        Some('i')
    } else if code == 0x18 {
        Some('o')
    } else if code == 0x19 {
        Some('p')
    } else if code == 0x1e {
        Some('a')
    } else if code == 0x1f {
        Some('s')
    } else if code == 0x20 {
        Some('d')
    } else if code == 0x21 {
        Some('f')
    } else if code == 0x22 {
        Some('g')
    } else if code == 0x23 {
        Some('h')
    } else if code == 0x24 {
        Some('j')
    } else if code == 0x25 {
        Some('k')
    } else if code == 0x26 {
        Some('l')
    } else if code == 0x2c {
        Some('z')
    } else if code == 0x2d {
        Some('x')
    } else if code == 0x2e {
        Some('c')
    } else if code == 0x2f {
        Some('v')
    } else if code == 0x30 {
        Some('b')
    } else if code == 0x31 {
        Some('n')
    } else if code == 0x32 {
        Some('m')
    } else {
        None
    }
}

/// The keys with a symbol and another one with shift.
pub open spec fn symbol_key(code: u8) -> Option<(char, char)> {
    if code == 0x02 {
        Some(('1', '!'))
    } else if code == 0x03 {
        Some(('2', '@'))
    } else if code == 0x04 {
        Some(('3', '#'))
    } else if code == 0x05 {
        Some(('4', '$'))
    } else if code == 0x06 {
        Some(('5', '%'))
    } else if code == 0x07 {
        Some(('6', '^'))
    } else if code == 0x08 {
        Some(('7', '&'))
    } else if code == 0x09 {
        Some(('8', '*'))
    } else if code == 0x0a {
        Some(('9', '('))
    } else if code == 0x0b {
        Some(('0', ')'))
    } else if code == 0x0c {
        Some(('-', '_'))
    } else if code == 0x0d {
        Some(('=', '+'))
    } else if code == 0x1a {
        Some(('[', '{'))
    } else if code == 0x1b {
        Some((']', '}'))
    } else if code == 0x27 {
        Some((';', ':'))
    } else if code == 0x28 {
        Some(('\'', '"'))
    } else if code == 0x29 {
        Some(('`', '~'))
    } else if code == 0x2b {
        Some(('\\', '|'))
    } else if code == 0x33 {
        Some((',', '<'))
    } else if code == 0x34 {
        Some(('.', '>'))
    } else if code == 0x35 {
        Some(('/', '?'))
    } else {
        None
    }
}

/// The keys of the number pad, with and without the number lock.
pub open spec fn pad_key(code: u8, num_lock: bool) -> Option<u32> {
    if code == 0x47 {
        Some(if num_lock {
            0xffb7
        } else {
            0xff50
        })
    } else if code == 0x48 {
        Some(if num_lock {
            0xffb8
        } else {
            0xff52
        })
    } else if code == 0x49 {
        Some(if num_lock {
            0xffb9
        } else {
            0xff55
        })
    } else if code == 0x4b {
        Some(if num_lock {
            0xffb4
        } else {
            0xff51
        })
    } else if code == 0x4c {
        Some(0xffb5)
    } else if code == 0x4d {
        Some(if num_lock {
            0xffb6
        } else {
            0xff53
        })
    } else if code == 0x4f {
        Some(if num_lock {
            0xffb1
        } else {
            0xff57
        })
    } else if code == 0x50 {
        Some(if num_lock {
            0xffb2
        } else {
            0xff54
        })
    } else if code == 0x51 {
        Some(if num_lock {
            0xffb3
        } else {
            0xff56
        })
    } else if code == 0x52 {
        Some(if num_lock {
            0xffb0
        } else {
            0xff63
        })
    } else if code == 0x53 {
        Some(if num_lock {
            0xffae
        } else {
            0xffff
        })
    } else {
        None
    }
}

/// The other keys.
pub open spec fn plain_key(code: u8, extended: bool) -> Option<u32> {
    if code == 0x01 {
        Some(0xff1b)
    } else if code == 0x0e {
        Some(0xff08)
    } else if code == 0x0f {
        Some(0xff09)
    } else if code == 0x1a {
        Some(0x5b)
    } else if code == 0x1b {
        Some(0x5d)
    } else if code == 0x1c && !extended {
        Some(0xff0d)
    } else if code == 0x1c && extended {
        Some(0xff8d)
    } else if code == 0x1d && !extended {
        Some(0xffe3)
    } else if code == 0x1d && extended {
        Some(0xffe4)
    } else if code == 0x27 {
        Some(0x3b)
    } else if code == 0x28 {
        Some(0x27)
    } else if code == 0x29 {
        Some(0x60)
    } else if code == 0x2a {
        Some(0xffe1)
    } else if code == 0x2b {
        Some(0x5c)
    } else if code == 0x33 {
        Some(0x2c)
    } else if code == 0x34 {
        Some(0x2e)
    } else if code == 0x35 && !extended {
        Some(0x2f)
    } else if code == 0x35 && extended {
        Some(0xffaf)
    } else if code == 0x36 {
        Some(0xffe2)
    } else if code == 0x37 && !extended {
        Some(0xffaa)
    } else if code == 0x38 && !extended {
        Some(0xffe9)
    } else if code == 0x38 && extended {
        Some(0xffea)
    } else if code == 0x39 {
        Some(0x20)
    } else if code == 0x3a {
        Some(0xffe5)
    } else if code == 0x3b {
        Some(0xffbe)
    } else if code == 0x3c {
        Some(0xffbf)
    } else if code == 0x3d {
        Some(0xffc0)
    } else if code == 0x3e {
        Some(0xffc1)
    } else if code == 0x3f {
        Some(0xffc2)
    } else if code == 0x40 {
        Some(0xffc3)
    } else if code == 0x41 {
        Some(0xffc4)
    } else if code == 0x42 {
        Some(0xffc5)
    } else if code == 0x43 {
        Some(0xffc6)
    } else if code == 0x44 {
        Some(0xffc7)
    } else if code == 0x45 && !extended {
        Some(0xff7f)
    } else if code == 0x46 {
        Some(0xff14)
    } else if code == 0x37 && extended {
        Some(0xff61)
    } else if code == 0x45 && extended {
        Some(0xff13)
    } else if code == 0x47 && extended {
        Some(0xff50)
    } else if code == 0x48 && extended {
        Some(0xff52)
    } else if code == 0x49 && extended {
        Some(0xff55)
    } else if code == 0x4a {
        Some(0xffad)
    } else if code == 0x4b && extended {
        Some(0xff51)
    } else if code == 0x4d && extended {
        Some(0xff53)
    } else if code == 0x4e {
        Some(0xffab)
    } else if code == 0x4f && extended {
        Some(0xff57)
    } else if code == 0x50 && extended {
        Some(0xff54)
    } else if code == 0x51 && extended {
        Some(0xff56)
    } else if code == 0x52 && extended {
        Some(0xff63)
    } else if code == 0x53 && extended {
        Some(0xffff)
    } else if code == 0x57 {
        Some(0xffc8)
    } else if code == 0x58 {
        Some(0xffc9)
    } else if code == 0x5b {
        Some(0xffeb)
    } else if code == 0x5c {
        Some(0xffec)
    } else if code == 0x5d {
        Some(0xff67)
    } else if code == 0x10 && extended {
        Some(0x1008ff16)
    } else if code == 0x19 && extended {
        Some(0x1008ff17)
    } else if code == 0x20 && extended {
        Some(0x1008ff12)
    } else if code == 0x22 && extended {
        Some(0x1008ff14)
    } else if code == 0x24 && extended {
        Some(0x1008ff15)
    } else if code == 0x2e && extended {
        Some(0x1008ff11)
    } else if code == 0x30 && extended {
        Some(0x1008ff13)
    } else {
        None
    }
}

/// An ASCII lower-case letter as an upper-case one.
pub open spec fn upper(c: char) -> int {
    c as int - 32
}

/// The key symbol of a scancode. Letters follow shift and caps lock, symbols follow shift, and
/// the number pad follows the number lock.
pub open spec fn keysym(code: u8, extended: bool, k: VncKeyState) -> Option<u32> {
    let shift = k.shift_left || k.shift_right;
    if !extended && letter_key(code) is Some {
        let c = letter_key(code)->0;
        if k.caps_lock != shift {
            Some(upper(c) as u32)
        } else {
            Some(c as u32)
        }
    } else if !extended && symbol_key(code) is Some {
        if shift {
            Some((symbol_key(code)->0).1 as u32)
        } else {
            Some((symbol_key(code)->0).0 as u32)
        }
    } else if !extended && pad_key(code, k.num_lock) is Some {
        pad_key(code, k.num_lock)
    } else {
        plain_key(code, extended)
    }
}

/// The letter of a scancode.
pub fn alpha_from_scancode(code: u8) -> (c: Option<char>)
    ensures
        c == letter_key(code),
        c matches Some(l) ==> 'a' as int <= l as int <= 'z' as int,
{
    match code {
        0x10 => Some('q'),
        0x11 => Some('w'),
        0x12 => Some('e'),
        0x13 => Some('r'),
        0x14 => Some('t'),
        0x15 => Some('y'),
        0x16 => Some('u'),
        0x17 => Some('i'),
        0x18 => Some('o'),
        0x19 => Some('p'),
        0x1e => Some('a'),
        0x1f => Some('s'),
        0x20 => Some('d'),
        0x21 => Some('f'),
        0x22 => Some('g'),
        0x23 => Some('h'),
        0x24 => Some('j'),
        0x25 => Some('k'),
        0x26 => Some('l'),
        0x2c => Some('z'),
        0x2d => Some('x'),
        0x2e => Some('c'),
        0x2f => Some('v'),
        0x30 => Some('b'),
        0x31 => Some('n'),
        0x32 => Some('m'),
        _ => None,
    }
}

/// The two symbols of a scancode.
pub fn printable_symbol_from_scancode(code: u8) -> (s: Option<(char, char)>)
    ensures
        s == symbol_key(code),
{
    match code {
        0x02 => Some(('1', '!')),
        0x03 => Some(('2', '@')),
        0x04 => Some(('3', '#')),
        0x05 => Some(('4', '$')),
        0x06 => Some(('5', '%')),
        0x07 => Some(('6', '^')),
        0x08 => Some(('7', '&')),
        0x09 => Some(('8', '*')),
        0x0a => Some(('9', '(')),
        0x0b => Some(('0', ')')),
        0x0c => Some(('-', '_')),
        0x0d => Some(('=', '+')),
        0x1a => Some(('[', '{')),
        0x1b => Some((']', '}')),
        0x27 => Some((';', ':')),
        0x28 => Some(('\'', '"')),
        0x29 => Some(('`', '~')),
        0x2b => Some(('\\', '|')),
        0x33 => Some((',', '<')),
        0x34 => Some(('.', '>')),
        0x35 => Some(('/', '?')),
        _ => None,
    }
}

/// The key symbol of a scancode of the number pad.
pub fn numpad_keysym_from_scancode(code: u8, num_lock: bool) -> (s: Option<u32>)
    ensures
        s == pad_key(code, num_lock),
{
    let (locked, unlocked): (u32, u32) = match code {
        0x47 => (0xffb7, 0xff50),
        0x48 => (0xffb8, 0xff52),
        0x49 => (0xffb9, 0xff55),
        0x4b => (0xffb4, 0xff51),
        0x4c => (0xffb5, 0xffb5),
        0x4d => (0xffb6, 0xff53),
        0x4f => (0xffb1, 0xff57),
        0x50 => (0xffb2, 0xff54),
        0x51 => (0xffb3, 0xff56),
        0x52 => (0xffb0, 0xff63),
        0x53 => (0xffae, 0xffff),
        _ => return None,
    };
    if num_lock {
        Some(locked)
    } else {
        Some(unlocked)
    }
}

/// The key symbol of one of the other keys.
fn plain_keysym(code: u8, extended: bool) -> (s: Option<u32>)
    ensures
        s == plain_key(code, extended),
{
    let keysym: u32 = match (code, extended) {
        (0x01, _) => 0xff1b,
        (0x0e, _) => 0xff08,
        (0x0f, _) => 0xff09,
        (0x1a, _) => 0x5b,
        (0x1b, _) => 0x5d,
        (0x1c, false) => 0xff0d,
        (0x1c, true) => 0xff8d,
        (0x1d, false) => 0xffe3,
        (0x1d, true) => 0xffe4,
        (0x27, _) => 0x3b,
        (0x28, _) => 0x27,
        (0x29, _) => 0x60,
        (0x2a, _) => 0xffe1,
        (0x2b, _) => 0x5c,
        (0x33, _) => 0x2c,
        (0x34, _) => 0x2e,
        (0x35, false) => 0x2f,
        (0x35, true) => 0xffaf,
        (0x36, _) => 0xffe2,
        (0x37, false) => 0xffaa,
        (0x38, false) => 0xffe9,
        (0x38, true) => 0xffea,
        (0x39, _) => 0x20,
        (0x3a, _) => 0xffe5,
        (0x3b, _) => 0xffbe,
        (0x3c, _) => 0xffbf,
        (0x3d, _) => 0xffc0,
        (0x3e, _) => 0xffc1,
        (0x3f, _) => 0xffc2,
        (0x40, _) => 0xffc3,
        (0x41, _) => 0xffc4,
        (0x42, _) => 0xffc5,
        (0x43, _) => 0xffc6,
        (0x44, _) => 0xffc7,
        (0x45, false) => 0xff7f,
        (0x46, _) => 0xff14,
        (0x37, true) => 0xff61,
        (0x45, true) => 0xff13,
        (0x47, true) => 0xff50,
        (0x48, true) => 0xff52,
        (0x49, true) => 0xff55,
        (0x4a, _) => 0xffad,
        (0x4b, true) => 0xff51,
        (0x4d, true) => 0xff53,
        (0x4e, _) => 0xffab,
        (0x4f, true) => 0xff57,
        (0x50, true) => 0xff54,
        (0x51, true) => 0xff56,
        (0x52, true) => 0xff63,
        (0x53, true) => 0xffff,
        (0x57, _) => 0xffc8,
        (0x58, _) => 0xffc9,
        (0x5b, _) => 0xffeb,
        (0x5c, _) => 0xffec,
        (0x5d, _) => 0xff67,
        (0x10, true) => 0x1008ff16,
        (0x19, true) => 0x1008ff17,
        (0x20, true) => 0x1008ff12,
        (0x22, true) => 0x1008ff14,
        (0x24, true) => 0x1008ff15,
        (0x2e, true) => 0x1008ff11,
        (0x30, true) => 0x1008ff13,
        _ => return None,
    };
    Some(keysym)
}

/// The key symbol of a scancode.
pub fn keysym_from_scancode_with_state(code: u8, extended: bool, key_state: &VncKeyState) -> (s:
    Option<u32>)
    ensures
        s == keysym(code, extended, *key_state),
{
    let shift: bool = key_state.shift_active();
    if !extended {
        if let Some(letter) = alpha_from_scancode(code) {
            return Some(
                if key_state.caps_lock != shift {
                    letter as u32 - 32
                } else {
                    letter as u32
                },
            );
        }
        if let Some((normal, shifted)) = printable_symbol_from_scancode(code) {
            return Some(
                if shift {
                    shifted as u32
                } else {
                    normal as u32
                },
            );
        }
        if let Some(keysym) = numpad_keysym_from_scancode(code, key_state.num_lock) {
            return Some(keysym);
        }
    }
    plain_keysym(code, extended)
}

/// Whether a scancode is that of a lock key.
pub fn is_lock_scancode(code: u8, extended: bool) -> (b: bool)
    ensures
        b == (code == 0x3a || (code == 0x45 && !extended) || code == 0x46),
{
    code == 0x3a || (code == 0x45 && !extended) || code == 0x46
}

/// Whether a scancode is that of a modifier key.
pub fn is_modifier_scancode(code: u8, extended: bool) -> (b: bool)
    ensures
        b == (if extended {
            code == 0x1d || code == 0x38 || code == 0x5b || code == 0x5c
        } else {
            code == 0x2a || code == 0x36 || code == 0x1d || code == 0x38
        }),
{
    if extended {
        code == 0x1d || code == 0x38 || code == 0x5b || code == 0x5c
    } else {
        code == 0x2a || code == 0x36 || code == 0x1d || code == 0x38
    }
}

/// A key that has a symbol when it goes down has one when it comes up, whatever shift and lock
/// keys did in between.
pub proof fn every_press_has_a_release(code: u8, extended: bool, down: VncKeyState, up: VncKeyState)
    ensures
        keysym(code, extended, down) is Some <==> keysym(code, extended, up) is Some,
{
}

/// A lock key that is pressed twice is back where it was.
pub proof fn lock_keys_flip_back(k: VncKeyState, code: u8, extended: bool)
    requires
        code == 0x3a || (code == 0x45 && !extended) || code == 0x46,
    ensures
        key_state_after(key_state_after(k, code, extended, true), code, extended, true) == k,
        key_state_after(k, code, extended, false) == k,
{
}

} // verus!
