//! What a selection copies and what the screen shows, position by position.
use crate::terminal::cell::{Cell, Color, LineView, Selection};
use crate::terminal::screen::Screen;
use crate::terminal::select::{
    columns_between, covers, first_corner, last_corner, lemma_text_settled, painted, row_text,
    text_before, visible_chars, Backdrop,
};
use vstd::prelude::*;

verus! {

/// The text that is copied between two positions, each a column and a row.
pub open spec fn copied_text(s: Screen, from: (usize, usize), to: (usize, usize)) -> Seq<char> {
    (Screen { selection: Some(Selection { start: from, end: to }), ..s }).selected_text()
}

/// The lines of a terminal, from the oldest of the history to the last of the screen.
pub open spec fn all_lines(s: Screen) -> Seq<LineView> {
    s.history + s.grid
}

/// The characters of a row from column `from` to before column `to`.
pub open spec fn stretch(line: LineView, from: int, to: int) -> Seq<char> {
    Seq::new((to - from) as nat, |i: int| line.cells[from + i].ch)
}

/// Whether every cell of a row holds a character of its own.
pub open spec fn all_narrow(line: LineView) -> bool {
    forall|x: int| 0 <= x < line.cells.len() ==> (#[trigger] line.cells[x]).ch != '\0'
}

/// Texts with a line feed between each two.
pub open spec fn with_breaks(parts: Seq<Seq<char>>) -> Seq<char>
    decreases parts.len(),
{
    if parts.len() == 0 {
        Seq::empty()
    } else if parts.len() == 1 {
        parts[0]
    } else {
        with_breaks(parts.drop_last()) + seq!['\n'] + parts.last()
    }
}

/// How many line feeds a text holds.
pub open spec fn breaks(text: Seq<char>) -> nat
    decreases text.len(),
{
    if text.len() == 0 {
        0
    } else {
        breaks(text.drop_last()) + if text.last() == '\n' {
            1nat
        } else {
            0
        }
    }
}

proof fn lemma_breaks_add(a: Seq<char>, b: Seq<char>)
    ensures
        breaks(a + b) == breaks(a) + breaks(b),
    decreases b.len(),
{
    if b.len() == 0 {
        assert(a + b =~= a);
    } else {
        lemma_breaks_add(a, b.drop_last());
        assert((a + b).drop_last() =~= a + b.drop_last());
    }
}

proof fn lemma_no_breaks(a: Seq<char>)
    requires
        !a.contains('\n'),
    ensures
        breaks(a) == 0,
    decreases a.len(),
{
    if a.len() > 0 {
        assert(a[a.len() - 1] == a.last());
        assert forall|i: int| 0 <= i < a.drop_last().len() implies a.drop_last()[i] != '\n' by {
            assert(a[i] == a.drop_last()[i]);
        }
        lemma_no_breaks(a.drop_last());
    }
}

proof fn lemma_joined_breaks(parts: Seq<Seq<char>>)
    requires
        parts.len() > 0,
        forall|k: int| 0 <= k < parts.len() ==> !(#[trigger] parts[k]).contains('\n'),
    ensures
        breaks(with_breaks(parts)) == parts.len() - 1,
    decreases parts.len(),
{
    lemma_no_breaks(parts.last());
    if parts.len() == 1 {
        lemma_no_breaks(parts[0]);
    } else {
        lemma_joined_breaks(parts.drop_last());
        lemma_breaks_add(with_breaks(parts.drop_last()), seq!['\n']);
        lemma_breaks_add(with_breaks(parts.drop_last()) + seq!['\n'], parts.last());
        assert(seq!['\n'].drop_last() =~= Seq::empty());
        assert(breaks(seq!['\n'].drop_last()) == 0);
        assert(breaks(seq!['\n']) == 1);
    }
}

proof fn lemma_visible_narrow(cells: Seq<Cell>)
    requires
        forall|x: int| 0 <= x < cells.len() ==> (#[trigger] cells[x]).ch != '\0',
    ensures
        visible_chars(cells) == Seq::new(cells.len(), |i: int| cells[i].ch),
    decreases cells.len(),
{
    if cells.len() > 0 {
        lemma_visible_narrow(cells.drop_last());
        assert(cells.last() == cells[cells.len() - 1]);
        assert(visible_chars(cells) =~= Seq::new(cells.len(), |i: int| cells[i].ch));
    } else {
        assert(visible_chars(cells) =~= Seq::new(cells.len(), |i: int| cells[i].ch));
    }
}

proof fn lemma_visible_add(a: Seq<Cell>, b: Seq<Cell>)
    ensures
        visible_chars(a + b) == visible_chars(a) + visible_chars(b),
    decreases b.len(),
{
    if b.len() == 0 {
        assert(a + b =~= a);
        assert(visible_chars(a) + visible_chars(b) =~= visible_chars(a));
    } else {
        lemma_visible_add(a, b.drop_last());
        assert((a + b).drop_last() =~= a + b.drop_last());
        assert((a + b).last() == b.last());
        assert(visible_chars(a + b) =~= visible_chars(a) + visible_chars(b));
    }
}

proof fn lemma_one_row(s: Screen, from: usize, to: usize, y: usize)
    requires
        from <= to,
        y < all_lines(s).len(),
    ensures
        copied_text(s, (from, y), (to, y)) == visible_chars(
            columns_between(all_lines(s)[y as int].cells, from as int, to + 1),
        ),
{
    let lines = all_lines(s);
    let sel = Selection { start: (from, y), end: (to, y) };
    assert(text_before(lines, sel, y as int) =~= Seq::empty());
    assert(text_before(lines, sel, y + 1) =~= row_text(lines[y as int], sel, y as int));
    lemma_text_settled(lines, sel, y + 1, lines.len() as int);
}

/// Selecting one cell copies its character, or nothing where it is the second half of a wide one.
/// Nothing is copied from beyond the end of a row.
pub proof fn copying_one_cell(s: Screen, x: usize, y: usize)
    requires
        y < all_lines(s).len(),
    ensures
        ({
            let cells = all_lines(s)[y as int].cells;
            let text = copied_text(s, (x, y), (x, y));
            &&& x >= cells.len() ==> text.len() == 0
            &&& x < cells.len() && cells[x as int].ch == '\0' ==> text.len() == 0
            &&& x < cells.len() && cells[x as int].ch != '\0' ==> text == seq![cells[x as int].ch]
        }),
{
    lemma_one_row(s, x, x, y);
    let cells = all_lines(s)[y as int].cells;
    if x < cells.len() {
        let part = columns_between(cells, x as int, x + 1);
        assert(part.len() == 1 && part.last() == cells[x as int]);
        assert(visible_chars(part.drop_last()) =~= Seq::empty());
        if cells[x as int].ch != '\0' {
            assert(visible_chars(part) =~= seq![cells[x as int].ch]);
        }
    }
}

/// What is copied from a stretch of a row is what is copied from its parts, one after the other.
pub proof fn copying_a_stretch(s: Screen, from: usize, middle: usize, to: usize, y: usize)
    requires
        y < all_lines(s).len(),
        from <= middle < to,
    ensures
        copied_text(s, (from, y), (to, y)) == copied_text(s, (from, y), (middle, y)) + copied_text(
            s,
            ((middle + 1) as usize, y),
            (to, y),
        ),
{
    lemma_one_row(s, from, to, y);
    lemma_one_row(s, from, middle, y);
    lemma_one_row(s, (middle + 1) as usize, to, y);
    let cells = all_lines(s)[y as int].cells;
    let a = columns_between(cells, from as int, middle + 1);
    let b = columns_between(cells, middle + 1, to + 1);
    assert(columns_between(cells, from as int, to + 1) =~= a + b);
    lemma_visible_add(a, b);
}

proof fn lemma_split_head(lines: Seq<LineView>, all: Selection, head: Selection, y: int)
    requires
        first_corner(all) == first_corner(head),
        first_corner(head).1 <= last_corner(head).1 < last_corner(all).1 < lines.len(),
        y <= last_corner(head).1,
    ensures
        text_before(lines, all, y) == text_before(lines, head, y),
    decreases y,
{
    if y > first_corner(all).1 {
        lemma_split_head(lines, all, head, y - 1);
    }
}

proof fn lemma_split_tail(lines: Seq<LineView>, all: Selection, tail: Selection, y: int)
    requires
        last_corner(all) == last_corner(tail),
        first_corner(all).1 < first_corner(tail).1 <= last_corner(all).1 < lines.len(),
        first_corner(tail).0 == 0,
        y >= first_corner(tail).1,
    ensures
        text_before(lines, all, y) == text_before(lines, all, first_corner(tail).1 as int)
            + text_before(lines, tail, y),
    decreases y,
{
    let mid = first_corner(tail).1 as int;
    if y > mid {
        lemma_split_tail(lines, all, tail, y - 1);
        if y - 1 <= last_corner(all).1 {
            assert(row_text(lines[y - 1], all, y - 1) == row_text(lines[y - 1], tail, y - 1));
            assert(text_before(lines, all, y) =~= text_before(lines, all, mid) + text_before(
                lines,
                tail,
                y,
            ));
        }
    } else {
        assert(text_before(lines, tail, y) =~= Seq::empty());
        assert(text_before(lines, all, mid) + Seq::<char>::empty() =~= text_before(
            lines,
            all,
            mid,
        ));
    }
}

/// What is copied from several rows is what is copied up to the end of one of them, a line feed
/// unless that row is marked as a continuation, and what is copied from the start of the next row
/// on.
#[verifier::rlimit(40)]
pub proof fn copying_several_rows(s: Screen, from: (usize, usize), to: (usize, usize), y: usize)
    requires
        from.1 <= y < to.1 < all_lines(s).len(),
        0 < all_lines(s)[y as int].cells.len() <= usize::MAX,
        y == from.1 ==> from.0 < all_lines(s)[y as int].cells.len(),
    ensures
        ({
            let line = all_lines(s)[y as int];
            let head = copied_text(s, from, ((line.cells.len() - 1) as usize, y));
            let tail = copied_text(s, (0, (y + 1) as usize), to);
            &&& line.is_wrapped ==> copied_text(s, from, to) == head + tail
            &&& !line.is_wrapped ==> copied_text(s, from, to) == head + seq!['\n'] + tail
        }),
{
    let lines = all_lines(s);
    let line = lines[y as int];
    let end = (line.cells.len() - 1) as usize;
    let all = Selection { start: from, end: to };
    let head = Selection { start: from, end: (end, y) };
    let tail = Selection { start: (0, (y + 1) as usize), end: to };
    let total = lines.len() as int;
    assert(first_corner(head) == from && last_corner(head) == (end, y));
    assert(first_corner(tail) == (0usize, (y + 1) as usize) && last_corner(tail) == to);
    lemma_split_head(lines, all, head, y as int);
    lemma_split_tail(lines, all, tail, total);
    lemma_text_settled(lines, head, y + 1, total);
    let before = text_before(lines, head, y as int);
    let text = row_text(line, head, y as int);
    assert(text_before(lines, head, y + 1) == before + text);
    let lf = if line.is_wrapped {
        Seq::<char>::empty()
    } else {
        seq!['\n']
    };
    assert(row_text(line, all, y as int) =~= text + lf);
    assert(text_before(lines, all, y + 1) =~= before + text + lf);
    assert(copied_text(s, from, to) =~= copied_text(s, from, (end, y)) + lf + copied_text(
        s,
        (0, (y + 1) as usize),
        to,
    ));
    if line.is_wrapped {
        assert(copied_text(s, from, (end, y)) + lf =~= copied_text(s, from, (end, y)));
    }
}

/// The parts that a selection takes of the rows from `from.1` to `to.1`.
pub open spec fn row_parts(s: Screen, from: (usize, usize), to: (usize, usize)) -> Seq<Seq<char>> {
    Seq::new(
        (to.1 - from.1 + 1) as nat,
        |k: int|
            {
                let line = all_lines(s)[from.1 + k];
                stretch(
                    line,
                    if k == 0 {
                        from.0 as int
                    } else {
                        0
                    },
                    if from.1 + k == to.1 {
                        to.0 + 1
                    } else {
                        line.cells.len() as int
                    },
                )
            },
    )
}

#[verifier::rlimit(40)]
proof fn lemma_parts(s: Screen, from: (usize, usize), to: (usize, usize), y: int)
    requires
        from.1 <= y <= to.1 < all_lines(s).len(),
        from.1 == to.1 ==> from.0 <= to.0,
        from.0 < all_lines(s)[from.1 as int].cells.len(),
        to.0 < all_lines(s)[to.1 as int].cells.len(),
        forall|k: int|
            from.1 <= k <= to.1 ==> all_narrow(#[trigger] all_lines(s)[k]) && (k < to.1
                ==> !all_lines(s)[k].is_wrapped),
    ensures
        text_before(all_lines(s), Selection { start: from, end: to }, y + 1) == with_breaks(
            row_parts(s, from, to).take(y - from.1 + 1),
        ) + if y < to.1 {
            seq!['\n']
        } else {
            Seq::empty()
        },
    decreases y,
{
    let lines = all_lines(s);
    let line = lines[y];
    let sel = Selection { start: from, end: to };
    let parts = row_parts(s, from, to);
    let some = parts.take(y - from.1 + 1);
    let a: int = if y == from.1 {
        from.0 as int
    } else {
        0
    };
    let b: int = if y == to.1 {
        to.0 + 1
    } else {
        line.cells.len() as int
    };
    let cells = columns_between(line.cells, a, b);
    assert(all_narrow(lines[y]));
    assert forall|x: int| 0 <= x < cells.len() implies (#[trigger] cells[x]).ch != '\0' by {
        assert(cells[x] == line.cells[a + x]);
    }
    lemma_visible_narrow(cells);
    assert(visible_chars(cells) =~= stretch(line, a, b));
    assert(some.last() == stretch(line, a, b));
    if y == from.1 {
        assert(text_before(lines, sel, y) =~= Seq::empty());
        assert(some.len() == 1);
        assert(with_breaks(some) == stretch(line, a, b));
        assert(text_before(lines, sel, y + 1) =~= row_text(line, sel, y));
    } else {
        lemma_parts(s, from, to, y - 1);
        assert(some.drop_last() =~= parts.take(y - 1 - from.1 + 1));
    }
    assert(text_before(lines, sel, y + 1) =~= with_breaks(some) + if y < to.1 {
        seq!['\n']
    } else {
        Seq::empty()
    });
}

/// Rows of narrow characters, of which none is marked as a continuation, are copied as their
/// selected parts with a line feed between each two.
pub proof fn copying_plain_rows(s: Screen, from: (usize, usize), to: (usize, usize))
    requires
        from.1 <= to.1 < all_lines(s).len(),
        from.1 == to.1 ==> from.0 <= to.0,
        from.0 < all_lines(s)[from.1 as int].cells.len(),
        to.0 < all_lines(s)[to.1 as int].cells.len(),
        forall|k: int|
            from.1 <= k <= to.1 ==> all_narrow(#[trigger] all_lines(s)[k]) && (k < to.1
                ==> !all_lines(s)[k].is_wrapped),
    ensures
        copied_text(s, from, to) == with_breaks(row_parts(s, from, to)),
{
    let lines = all_lines(s);
    let sel = Selection { start: from, end: to };
    let parts = row_parts(s, from, to);
    lemma_parts(s, from, to, to.1 as int);
    assert(parts.take(to.1 - from.1 + 1) =~= parts);
    assert(with_breaks(parts) + Seq::<char>::empty() =~= with_breaks(parts));
    lemma_text_settled(lines, sel, to.1 + 1, lines.len() as int);
}

/// Where their cells hold no line feeds either, the text of such rows has one line feed less than
/// it has rows.
pub proof fn copied_rows_have_breaks_between(s: Screen, from: (usize, usize), to: (usize, usize))
    requires
        from.1 <= to.1 < all_lines(s).len(),
        from.1 == to.1 ==> from.0 <= to.0,
        from.0 < all_lines(s)[from.1 as int].cells.len(),
        to.0 < all_lines(s)[to.1 as int].cells.len(),
        forall|k: int|
            from.1 <= k <= to.1 ==> all_narrow(#[trigger] all_lines(s)[k]) && (k < to.1
                ==> !all_lines(s)[k].is_wrapped),
        forall|k: int, x: int|
            from.1 <= k <= to.1 && 0 <= x < all_lines(s)[k].cells.len() ==> (
            #[trigger] all_lines(s)[k].cells[x]).ch != '\n',
    ensures
        breaks(copied_text(s, from, to)) == to.1 - from.1,
{
    copying_plain_rows(s, from, to);
    let parts = row_parts(s, from, to);
    assert forall|k: int| 0 <= k < parts.len() implies !(#[trigger] parts[k]).contains('\n') by {
        let line = all_lines(s)[from.1 + k];
        assert forall|i: int| 0 <= i < parts[k].len() implies parts[k][i] != '\n' by {
            let a: int = if k == 0 {
                from.0 as int
            } else {
                0
            };
            assert(parts[k][i] == line.cells[a + i].ch);
            assert(all_lines(s)[from.1 + k].cells[a + i].ch != '\n');
        }
    }
    lemma_joined_breaks(parts);
}

/// Without a selection nothing is copied.
pub proof fn copying_needs_a_selection(s: Screen)
    requires
        s.selection is None,
    ensures
        s.selected_text().len() == 0,
{
}

/// A selection from one position to a later one covers the rest of the first row, all rows between,
/// and the last row up to its end. Its direction does not matter.
pub proof fn selections_cover_what_is_between(
    from: (usize, usize),
    to: (usize, usize),
    pos: (usize, usize),
)
    requires
        from.1 < to.1 || (from.1 == to.1 && from.0 <= to.0),
    ensures
        ({
            let covered = covers(Selection { start: from, end: to }, pos);
            &&& covered == covers(Selection { start: to, end: from }, pos)
            &&& pos.1 < from.1 || pos.1 > to.1 ==> !covered
            &&& from.1 < pos.1 < to.1 ==> covered
            &&& pos.1 == from.1 && from.1 < to.1 ==> covered == (pos.0 >= from.0)
            &&& pos.1 == to.1 && from.1 < to.1 ==> covered == (pos.0 <= to.0)
            &&& pos.1 == from.1 && from.1 == to.1 ==> covered == (from.0 <= pos.0 <= to.0)
        }),
{
}

/// Selected text is white on the selection's colour. Other text has its own colours, and no backdrop
/// where it is black. Blanks and second halves show nothing, and only underlined cells a line.
pub proof fn painting_a_cell(cell: Cell)
    ensures
        ({
            let selected = painted(cell, true);
            let plain = painted(cell, false);
            let black = Color { r: 0, g: 0, b: 0 };
            &&& selected.backdrop == Backdrop::Selected
            &&& cell.bg == black ==> plain.backdrop == Backdrop::Plain
            &&& cell.bg != black ==> plain.backdrop == Backdrop::Filled(cell.bg)
            &&& cell.ch == ' ' || cell.ch == '\0' ==> plain.glyph is None && selected.glyph is None
            &&& cell.ch != ' ' && cell.ch != '\0' ==> {
                &&& plain.glyph == Some((cell.ch, cell.fg))
                &&& selected.glyph == Some((cell.ch, Color { r: 255, g: 255, b: 255 }))
            }
            &&& plain.bold == cell.bold && selected.bold == cell.bold
            &&& cell.underline ==> plain.underline == Some(cell.fg) && selected.underline == Some(
                cell.fg,
            )
            &&& !cell.underline ==> plain.underline is None && selected.underline is None
        }),
{
}

/// The view ends with the last line, and scrolls back by one line for each step of the offset until
/// it shows the oldest one.
pub proof fn scrolling_back(s: Screen)
    requires
        s.offset >= 0,
    ensures
        s.offset <= s.history.len() ==> s.first_shown() + s.offset == s.history.len(),
        s.offset > s.history.len() ==> s.first_shown() == 0,
{
}

} // verus!
