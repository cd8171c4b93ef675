//! How many columns a character takes.
use vstd::prelude::*;

verus! {

/// What `UnicodeWidthChar::width` of the `unicode-width` crate returns for a character.
pub uninterp spec fn unicode_width(c: char) -> Option<usize>;

/// Whether `c` is a control character (C0, delete, or C1).
pub open spec fn is_control(c: char) -> bool {
    (c as int) < 0x20 || 0x7f <= (c as int) < 0xa0
}

/// The columns that the terminal gives a character: its width, or one for a control character.
pub open spec fn columns(c: char) -> int {
    match unicode_width(c) {
        Some(w) => w as int,
        None => 1,
    }
}

/// Calls `unicode_width::UnicodeWidthChar::width`. The result is a fixed function of the
/// character: none for a control character and for no other, one column for printable ASCII, and
/// three columns at most.
#[verifier::external_body]
fn width_of(c: char) -> (w: Option<usize>)
    ensures
        w == unicode_width(c),
        w is None <==> is_control(c),
        0x20 <= c as int && (c as int) < 0x7f ==> w == Some(1usize),
        w matches Some(n) ==> n <= 3,
{
    unicode_width::UnicodeWidthChar::width(c)
}

/// The columns that the terminal gives a character.
pub fn char_columns(c: char) -> (w: usize)
    ensures
        w == columns(c),
        w <= 3,
        (c as int) < 0x7f ==> w == 1,
{
    match width_of(c) {
        Some(w) => w,
        None => 1,
    }
}

} // verus!
