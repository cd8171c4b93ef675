//! What the renditions make of the pen, and how long a prompt is watched.
use crate::terminal::cell::{ansi_palette, bright_palette, palette_256, Color};
use crate::terminal::edit_laws::{asks_for, is_untouched_line};
use crate::terminal::screen::{extended_color, renditions, Pen, Screen};
use vstd::prelude::*;

verus! {

/// The pen of a terminal after a rendition sequence.
pub open spec fn rendered(s: Screen, params: Seq<Seq<u16>>) -> Pen {
    s.csi(params, Seq::empty(), false, 'm').pen
}

/// A terminal with another pen.
pub open spec fn with_pen(s: Screen, pen: Pen) -> Screen {
    Screen { pen, ..s }
}

proof fn lemma_color_shift(all: Seq<Seq<u16>>, rest: Seq<Seq<u16>>, k: int, i: int)
    requires
        k >= 0,
        i >= 0,
        all.len() == rest.len() + k,
        forall|j: int| 0 <= j < rest.len() ==> all[j + k] == #[trigger] rest[j],
    ensures
        extended_color(all, i + k).0 == extended_color(rest, i).0,
        extended_color(all, i + k).1 == extended_color(rest, i).1 + k,
{
    if i < rest.len() {
        assert(all[i + k] == rest[i]);
    }
    if i + 1 < rest.len() {
        assert(all[(i + 1) + k] == rest[i + 1]);
    }
    if i + 2 < rest.len() {
        assert(all[(i + 2) + k] == rest[i + 2]);
    }
    if i + 3 < rest.len() {
        assert(all[(i + 3) + k] == rest[i + 3]);
    }
}

proof fn lemma_shift(pen: Pen, all: Seq<Seq<u16>>, rest: Seq<Seq<u16>>, k: int, i: int)
    requires
        k >= 0,
        i >= 0,
        all.len() == rest.len() + k,
        forall|j: int| 0 <= j < rest.len() ==> all[j + k] == #[trigger] rest[j],
    ensures
        renditions(pen, all, i + k) == renditions(pen, rest, i),
    decreases rest.len() - i,
{
    if i < rest.len() {
        assert(all[i + k] == rest[i]);
        let p = rest[i][0] as int;
        if p == 38 || p == 48 {
            lemma_color_shift(all, rest, k, i + 1);
            let (color, next) = extended_color(rest, i + 1);
            let changed = match color {
                Some(c) => if p == 38 {
                    Pen { fg: c, ..pen }
                } else {
                    Pen { bg: c, ..pen }
                },
                None => pen,
            };
            lemma_shift(changed, all, rest, k, next);
        } else {
            lemma_shift(crate::terminal::screen::rendition(pen, p), all, rest, k, i + 1);
        }
    }
}

/// Renditions are carried out one after the other, those that set a colour by number with their
/// numbers. Without any the pen stays.
#[verifier::rlimit(40)]
pub proof fn renditions_come_one_by_one(s: Screen, head: Seq<Seq<u16>>, rest: Seq<Seq<u16>>)
    requires
        head.len() > 0,
        head[0].len() > 0,
        ({
            let p = head[0][0];
            ||| head.len() == 1 && p != 38 && p != 48
            ||| head.len() == 3 && (p == 38 || p == 48) && head[1].len() > 0 && head[2].len() > 0
                && head[1][0] == 5
            ||| head.len() == 5 && (p == 38 || p == 48) && head[1].len() > 0 && head[2].len() > 0
                && head[3].len() > 0 && head[4].len() > 0 && head[1][0] == 2
        }),
    ensures
        rendered(s, head + rest) == rendered(with_pen(s, rendered(s, head)), rest),
        rendered(s, Seq::empty()) == s.pen,
{
    let all = head + rest;
    let k = head.len() as int;
    reveal_with_fuel(renditions, 2);
    assert forall|j: int| 0 <= j < head.len() implies all[j] == #[trigger] head[j] by {}
    assert(all[0] == head[0]);
    if k == 3 {
        assert(all[1] == head[1] && all[2] == head[2]);
    }
    if k == 5 {
        assert(all[1] == head[1] && all[2] == head[2] && all[3] == head[3] && all[4] == head[4]);
    }
    let pen = renditions(s.pen, head, 0);
    assert(renditions(s.pen, all, 0) == renditions(pen, all, k));
    lemma_shift(pen, all, rest, k, 0);
}

/// A single rendition changes what it names and keeps the rest of the pen: 1, 3 and 4 switch bold,
/// italic and underlined text on, 22, 23 and 24 switch them off, and 0 makes the pen plain white on
/// black.
#[verifier::rlimit(40)]
pub proof fn attributes_are_switched(s: Screen, n: u16)
    ensures
        ({
            let t = rendered(s, seq![seq![n]]);
            let white = Color { r: 255, g: 255, b: 255 };
            let black = Color { r: 0, g: 0, b: 0 };
            &&& n == 0 ==> t.fg == white && t.bg == black && !t.bold && !t.italic && !t.underline
            &&& n == 1 ==> t == (Pen { bold: true, ..s.pen })
            &&& n == 22 ==> t == (Pen { bold: false, ..s.pen })
            &&& n == 3 ==> t == (Pen { italic: true, ..s.pen })
            &&& n == 23 ==> t == (Pen { italic: false, ..s.pen })
            &&& n == 4 ==> t == (Pen { underline: true, ..s.pen })
            &&& n == 24 ==> t == (Pen { underline: false, ..s.pen })
            &&& n == 39 ==> t == (Pen { fg: white, ..s.pen })
            &&& n == 49 ==> t == (Pen { bg: black, ..s.pen })
            &&& n == 2 || (5 <= n <= 21) || (25 <= n <= 29) || (50 <= n <= 89) || n >= 108
                || (98 <= n <= 99) ==> t == s.pen
        }),
{
    let params = seq![seq![n]];
    reveal_with_fuel(renditions, 2);
    assert(params[0][0] == n);
}

/// Whether a colour has just the channels of a number: bit 0 for red, bit 1 for green and bit 2 for
/// blue.
pub open spec fn has_channels(c: Color, n: int, high: u8) -> bool {
    &&& c.r == (if n % 2 == 1 {
        high
    } else {
        0
    })
    &&& c.g == (if (n / 2) % 2 == 1 {
        high
    } else {
        0
    })
    &&& c.b == (if n / 4 == 1 {
        high
    } else {
        0
    })
}

/// A colour from the palette of eight, by its channels. Blue is lighter than they say, and the last
/// one is white.
pub open spec fn is_standard(c: Color, n: int) -> bool {
    if n == 4 {
        c == (Color { r: 50, g: 50, b: 255 })
    } else if n == 7 {
        c == (Color { r: 255, g: 255, b: 255 })
    } else {
        has_channels(c, n, 205)
    }
}

/// A bright colour, by its channels. The first one is grey, and blue is lighter than they say.
pub open spec fn is_bright(c: Color, n: int) -> bool {
    if n == 0 {
        c == (Color { r: 127, g: 127, b: 127 })
    } else if n == 4 {
        c == (Color { r: 92, g: 92, b: 255 })
    } else {
        has_channels(c, n, 255)
    }
}

/// The renditions from 30 and from 90 on set the colour of the text, those from 40 and from 100 on
/// that of the background, to a standard and to a bright colour. The rest of the pen stays.
#[verifier::rlimit(40)]
pub proof fn colors_are_set_by_rendition(s: Screen, n: u16)
    requires
        n < 8,
    ensures
        ({
            let fg = rendered(s, seq![seq![(30 + n) as u16]]);
            let bg = rendered(s, seq![seq![(40 + n) as u16]]);
            let bright_fg = rendered(s, seq![seq![(90 + n) as u16]]);
            let bright_bg = rendered(s, seq![seq![(100 + n) as u16]]);
            &&& is_standard(fg.fg, n as int) && fg == (Pen { fg: fg.fg, ..s.pen })
            &&& is_standard(bg.bg, n as int) && bg == (Pen { bg: bg.bg, ..s.pen })
            &&& is_bright(bright_fg.fg, n as int) && bright_fg == (Pen {
                fg: bright_fg.fg,
                ..s.pen
            })
            &&& is_bright(bright_bg.bg, n as int) && bright_bg == (Pen {
                bg: bright_bg.bg,
                ..s.pen
            })
        }),
{
    reveal_with_fuel(renditions, 2);
    assert(seq![seq![(30 + n) as u16]][0][0] == 30 + n);
    assert(seq![seq![(40 + n) as u16]][0][0] == 40 + n);
    assert(seq![seq![(90 + n) as u16]][0][0] == 90 + n);
    assert(seq![seq![(100 + n) as u16]][0][0] == 100 + n);
}

/// A colour by its three channels is that colour, of the text after 38 and of the background after
/// 48.
#[verifier::rlimit(40)]
pub proof fn colors_are_set_by_channels(s: Screen, r: u16, g: u16, b: u16)
    requires
        r < 256,
        g < 256,
        b < 256,
    ensures
        ({
            let c = Color { r: r as u8, g: g as u8, b: b as u8 };
            let tail = seq![seq![2u16], seq![r], seq![g], seq![b]];
            &&& rendered(s, seq![seq![38u16]] + tail) == (Pen { fg: c, ..s.pen })
            &&& rendered(s, seq![seq![48u16]] + tail) == (Pen { bg: c, ..s.pen })
        }),
{
    reveal_with_fuel(renditions, 2);
    let tail = seq![seq![2u16], seq![r], seq![g], seq![b]];
    let text = seq![seq![38u16]] + tail;
    let back = seq![seq![48u16]] + tail;
    assert(tail[0] == seq![2u16] && tail[1] == seq![r] && tail[2] == seq![g] && tail[3]
        == seq![b]);
    assert(text[0][0] == 38 && text[1][0] == 2 && text[2][0] == r && text[3][0] == g && text[4][0]
        == b);
    assert(back[0][0] == 48 && back[1][0] == 2 && back[2][0] == r && back[3][0] == g && back[4][0]
        == b);
}

/// A colour by its number is one of the standard and bright colours, one of a cube with six steps of
/// 51 for each channel, or one of 24 greys in steps of ten: of the text after 38 and of the background
/// after 48.
#[verifier::rlimit(40)]
pub proof fn colors_are_set_by_number(s: Screen, n: u16, r: int, g: int, b: int)
    requires
        n < 256,
        0 <= r < 6,
        0 <= g < 6,
        0 <= b < 6,
    ensures
        ({
            let tail = seq![seq![5u16], seq![n]];
            let text = rendered(s, seq![seq![38u16]] + tail);
            let back = rendered(s, seq![seq![48u16]] + tail);
            let c = text.fg;
            &&& text == (Pen { fg: c, ..s.pen })
            &&& back == (Pen { bg: c, ..s.pen })
            &&& n < 8 ==> is_standard(c, n as int)
            &&& 8 <= n < 16 ==> is_bright(c, n - 8)
            &&& n == 16 + 36 * r + 6 * g + b ==> c.r == 51 * r && c.g == 51 * g && c.b == 51 * b
            &&& n >= 232 ==> c.r == 8 + 10 * (n - 232) && c.g == c.r && c.b == c.r
        }),
{
    reveal_with_fuel(renditions, 2);
    let tail = seq![seq![5u16], seq![n]];
    let text = seq![seq![38u16]] + tail;
    let back = seq![seq![48u16]] + tail;
    assert(tail[0] == seq![5u16] && tail[1] == seq![n]);
    assert(text[0][0] == 38 && text[1][0] == 5 && text[2][0] == n);
    assert(back[0][0] == 48 && back[1][0] == 5 && back[2][0] == n);
    if n == 16 + 36 * r + 6 * g + b {
        let k = n - 16;
        assert(k / 36 == r && (k / 6) % 6 == g && k % 6 == b);
    }
}

/// A jump upwards watches the row that it reaches: for the next 29 sequences, during which rows that
/// are printed to are noted. Any other sequence shortens a watch by one, and its last one ends it.
#[verifier::rlimit(40)]
pub proof fn prompts_are_watched_for_a_while(s: Screen, params: Seq<Seq<u16>>, row: int, c: char)
    requires
        s.wf(),
        s.cols > 0,
        asks_for(params, row),
        1 <= row <= s.cursor_y,
    ensures
        ({
            let t = s.csi(params, Seq::empty(), false, 'H');
            &&& t.prompt_y == Some((row - 1) as usize)
            &&& t.timeout == 29
            &&& t.printed == Set::<usize>::empty()
        }),
        ({
            let t = s.csi(params, Seq::empty(), false, 'A');
            &&& s.timeout > 1 ==> t.timeout == s.timeout - 1 && t.prompt_y == s.prompt_y
            &&& s.timeout == 1 ==> t.timeout == 0 && t.prompt_y is None
            &&& s.timeout == 0 ==> t.timeout == 0 && t.prompt_y == s.prompt_y
            &&& t.printed == s.printed
        }),
        s.cursor_x < s.cols && s.timeout > 0 ==> s.put(c, 1).printed == s.printed.insert(
            s.cursor_y as usize,
        ),
        s.cursor_x < s.cols && s.timeout == 0 ==> s.put(c, 1).printed == s.printed,
{
}

/// A fresh terminal is untouched: its cursor is at the top left, its pen plain white on black, its
/// region the whole screen, and nothing is kept, selected or waiting.
#[verifier::rlimit(40)]
pub proof fn fresh_terminals_are_untouched(rows: int, cols: int)
    requires
        rows > 0,
        cols >= 0,
    ensures
        ({
            let s = Screen::fresh(rows, cols);
            &&& s.rows == rows && s.cols == cols
            &&& s.grid.len() == rows
            &&& forall|y: int| 0 <= y < rows ==> is_untouched_line(#[trigger] s.grid[y], cols)
            &&& s.cursor_x == 0 && s.cursor_y == 0
            &&& s.region == (0int, rows - 1)
            &&& s.pen.fg == (Color { r: 255, g: 255, b: 255 })
            &&& s.pen.bg == (Color { r: 0, g: 0, b: 0 })
            &&& !s.pen.bold && !s.pen.italic && !s.pen.underline
            &&& s.history.len() == 0 && s.responses.len() == 0 && s.preedit.len() == 0
            &&& s.offset == 0 && s.timeout == 0
            &&& s.selection is None && s.prompt_y is None && s.last_csi is None
        }),
{
}

/// The colours by number are those that the palettes have.
#[verifier::rlimit(40)]
pub proof fn palettes_have_their_colors(n: u8)
    ensures
        n < 8 ==> is_standard(ansi_palette(n as int), n as int),
        n < 8 ==> is_bright(bright_palette(n as int), n as int),
        n >= 8 ==> ansi_palette(n as int) == (Color { r: 255, g: 255, b: 255 }),
        n < 8 ==> palette_256(n) == ansi_palette(n as int),
        8 <= n < 16 ==> palette_256(n) == bright_palette(n - 8),
{
}

} // verus!
