//! What the keys of a VNC session stand for.
use crate::connection::vnc::keys::{key_state_after, keysym, VncKeyState};
use vstd::prelude::*;

verus! {

/// The letters of the three rows of the keyboard.
pub open spec fn letter_rows() -> Seq<Seq<char>> {
    seq![
        seq!['q', 'w', 'e', 'r', 't', 'y', 'u', 'i', 'o', 'p'],
        seq!['a', 's', 'd', 'f', 'g', 'h', 'j', 'k', 'l'],
        seq!['z', 'x', 'c', 'v', 'b', 'n', 'm'],
    ]
}

/// The scancode of the first letter of a row.
pub open spec fn row_start(row: int) -> int {
    if row == 0 {
        0x10
    } else if row == 1 {
        0x1e
    } else {
        0x2c
    }
}

/// Whether a shift key is held.
pub open spec fn shifted(k: VncKeyState) -> bool {
    k.shift_left || k.shift_right
}

/// A letter is typed as itself, and as its capital where just one of the shift and caps lock keys is
/// on.
pub proof fn letters_follow_shift_and_caps_lock(row: int, i: int, k: VncKeyState)
    requires
        0 <= row < 3,
        0 <= i < letter_rows()[row].len(),
    ensures
        ({
            let symbol = keysym((row_start(row) + i) as u8, false, k);
            let letter = letter_rows()[row][i] as int;
            &&& symbol is Some
            &&& shifted(k) == k.caps_lock ==> symbol->0 == letter
            &&& shifted(k) != k.caps_lock ==> symbol->0 == letter - 32
        }),
{
    assert(letter_rows()[0] == seq!['q', 'w', 'e', 'r', 't', 'y', 'u', 'i', 'o', 'p']);
    assert(letter_rows()[1] == seq!['a', 's', 'd', 'f', 'g', 'h', 'j', 'k', 'l']);
    assert(letter_rows()[2] == seq!['z', 'x', 'c', 'v', 'b', 'n', 'm']);
}

/// The keys of the upper row with two signs each.
pub open spec fn sign_row() -> Seq<(char, char)> {
    seq![
        ('1', '!'),
        ('2', '@'),
        ('3', '#'),
        ('4', '$'),
        ('5', '%'),
        ('6', '^'),
        ('7', '&'),
        ('8', '*'),
        ('9', '('),
        ('0', ')'),
        ('-', '_'),
        ('=', '+'),
    ]
}

/// Whether a key stands for one sign alone and for another with the shift key.
pub open spec fn has_signs(code: u8, plain: char, shift: char, k: VncKeyState) -> bool {
    keysym(code, false, k) == Some(
        if shifted(k) {
            shift as u32
        } else {
            plain as u32
        },
    )
}

/// Digits and signs follow the shift keys alone.
pub proof fn signs_follow_shift(i: int, k: VncKeyState)
    requires
        0 <= i < 12,
    ensures
        has_signs((2 + i) as u8, sign_row()[i].0, sign_row()[i].1, k),
        has_signs(0x1a, '[', '{', k),
        has_signs(0x1b, ']', '}', k),
        has_signs(0x27, ';', ':', k),
        has_signs(0x28, '\'', '"', k),
        has_signs(0x29, '`', '~', k),
        has_signs(0x2b, '\\', '|', k),
        has_signs(0x33, ',', '<', k),
        has_signs(0x34, '.', '>', k),
        has_signs(0x35, '/', '?', k),
        keysym(0x39, false, k) == Some(0x20u32),
{
}

/// The digits of the number pad, by their places from its upper left.
pub open spec fn pad_digit(code: u8) -> int {
    if 0x47 <= code <= 0x49 {
        7 + (code - 0x47)
    } else if 0x4b <= code <= 0x4d {
        4 + (code - 0x4b)
    } else if 0x4f <= code <= 0x51 {
        1 + (code - 0x4f)
    } else {
        0
    }
}

/// With the number lock the keys of the number pad are its digits and its separator. Without it they
/// are the keys that move the cursor, as those that stand apart always are.
pub proof fn the_number_pad_follows_its_lock(code: u8, k: VncKeyState)
    requires
        0x47 <= code <= 0x53,
        code != 0x4a,
        code != 0x4e,
    ensures
        ({
            let symbol = keysym(code, false, k);
            let apart = keysym(code, true, k);
            &&& k.num_lock && code < 0x53 ==> symbol == Some((0xffb0 + pad_digit(code)) as u32)
            &&& k.num_lock && code == 0x53 ==> symbol == Some(0xffaeu32)
            &&& !k.num_lock && code != 0x4c ==> symbol == apart
            &&& code == 0x47 ==> apart == Some(0xff50u32)
            &&& code == 0x4b ==> apart == Some(0xff51u32)
            &&& code == 0x48 ==> apart == Some(0xff52u32)
            &&& code == 0x4d ==> apart == Some(0xff53u32)
            &&& code == 0x50 ==> apart == Some(0xff54u32)
            &&& code == 0x49 ==> apart == Some(0xff55u32)
            &&& code == 0x51 ==> apart == Some(0xff56u32)
            &&& code == 0x4f ==> apart == Some(0xff57u32)
            &&& code == 0x52 ==> apart == Some(0xff63u32)
            &&& code == 0x53 ==> apart == Some(0xffffu32)
        }),
{
}

/// The other keys stand for the same whatever is held: the function keys one after the other, and the
/// left and right modifiers apart.
pub proof fn other_keys_stand_for_themselves(i: int, k: VncKeyState)
    requires
        0 <= i < 10,
    ensures
        keysym((0x3b + i) as u8, false, k) == Some((0xffbe + i) as u32),
        keysym(0x57, false, k) == Some(0xffc8u32),
        keysym(0x58, false, k) == Some(0xffc9u32),
        keysym(0x01, false, k) == Some(0xff1bu32),
        keysym(0x0e, false, k) == Some(0xff08u32),
        keysym(0x0f, false, k) == Some(0xff09u32),
        keysym(0x1c, false, k) == Some(0xff0du32),
        keysym(0x1c, true, k) == Some(0xff8du32),
        keysym(0x2a, false, k) == Some(0xffe1u32),
        keysym(0x36, false, k) == Some(0xffe2u32),
        keysym(0x1d, false, k) == Some(0xffe3u32),
        keysym(0x1d, true, k) == Some(0xffe4u32),
        keysym(0x38, false, k) == Some(0xffe9u32),
        keysym(0x38, true, k) == Some(0xffeau32),
        keysym(0x3a, false, k) == Some(0xffe5u32),
        keysym(0x35, true, k) == Some(0xffafu32),
        keysym(0x37, false, k) == Some(0xffaau32),
        keysym(0x4a, false, k) == Some(0xffadu32),
        keysym(0x4e, false, k) == Some(0xffabu32),
        keysym(0x4c, false, k) == Some(0xffb5u32),
        keysym(0x45, false, k) == Some(0xff7fu32),
        keysym(0x46, false, k) == Some(0xff14u32),
        keysym(0x37, true, k) == Some(0xff61u32),
        keysym(0x45, true, k) == Some(0xff13u32),
        keysym(0x5b, true, k) == Some(0xffebu32),
        keysym(0x5c, true, k) == Some(0xffecu32),
        keysym(0x5d, true, k) == Some(0xff67u32),
        keysym(0x2e, true, k) == Some(0x1008ff11u32),
        keysym(0x20, true, k) == Some(0x1008ff12u32),
        keysym(0x30, true, k) == Some(0x1008ff13u32),
        keysym(0x22, true, k) == Some(0x1008ff14u32),
        keysym(0x24, true, k) == Some(0x1008ff15u32),
        keysym(0x10, true, k) == Some(0x1008ff16u32),
        keysym(0x19, true, k) == Some(0x1008ff17u32),
        keysym(0x00, false, k) is None,
        keysym(0x7f, false, k) is None,
{
}

/// The shift keys are held while they are down, and each press of a lock key turns it around. No other
/// key changes what is held.
pub proof fn modifiers_are_followed(k: VncKeyState, code: u8, extended: bool, down: bool)
    ensures
        ({
            let after = key_state_after(k, code, extended, down);
            &&& after.shift_left == (if code == 0x2a && !extended {
                down
            } else {
                k.shift_left
            })
            &&& after.shift_right == (if code == 0x36 && !extended {
                down
            } else {
                k.shift_right
            })
            &&& after.caps_lock == (if code == 0x3a && down {
                !k.caps_lock
            } else {
                k.caps_lock
            })
            &&& after.num_lock == (if code == 0x45 && !extended && down {
                !k.num_lock
            } else {
                k.num_lock
            })
            &&& after.scroll_lock == (if code == 0x46 && down {
                !k.scroll_lock
            } else {
                k.scroll_lock
            })
        }),
{
}

} // verus!
