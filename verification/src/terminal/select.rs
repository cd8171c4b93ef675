//! What is shown of the terminal, and the text that a selection covers.
use crate::terminal::cell::{Cell, Color, LineView, Selection};
use crate::terminal::emulator::TerminalEmulator;
use crate::terminal::screen::Screen;
use vstd::prelude::*;

verus! {

/// Whether position `a` (column, row) comes before `b` in reading order, or is `b`.
pub open spec fn reads_before(a: (usize, usize), b: (usize, usize)) -> bool {
    a.1 < b.1 || (a.1 == b.1 && a.0 <= b.0)
}

/// The corner of a selection that comes first in reading order.
pub open spec fn first_corner(sel: Selection) -> (usize, usize) {
    if reads_before(sel.start, sel.end) {
        sel.start
    } else {
        sel.end
    }
}

/// The corner of a selection that comes last in reading order.
pub open spec fn last_corner(sel: Selection) -> (usize, usize) {
    if reads_before(sel.start, sel.end) {
        sel.end
    } else {
        sel.start
    }
}

/// Whether a selection covers a position.
pub open spec fn covers(sel: Selection, pos: (usize, usize)) -> bool {
    reads_before(first_corner(sel), pos) && reads_before(pos, last_corner(sel))
}

/// The characters of cells, without the second halves of wide ones.
pub open spec fn visible_chars(cells: Seq<Cell>) -> Seq<char>
    decreases cells.len(),
{
    if cells.len() == 0 {
        Seq::empty()
    } else if cells.last().ch == '\0' {
        visible_chars(cells.drop_last())
    } else {
        visible_chars(cells.drop_last()).push(cells.last().ch)
    }
}

/// The part of a row from column `from` to before column `to`, as far as the row goes.
pub open spec fn columns_between(cells: Seq<Cell>, from: int, to: int) -> Seq<Cell> {
    let end = if to < cells.len() {
        to
    } else {
        cells.len() as int
    };
    if from < end {
        cells.subrange(from, end)
    } else {
        Seq::empty()
    }
}

/// What the selection takes of row `y`: its characters, and a line break unless it is the last
/// row or is marked as a continuation.
pub open spec fn row_text(line: LineView, sel: Selection, y: int) -> Seq<char> {
    let from = if y == first_corner(sel).1 {
        first_corner(sel).0 as int
    } else {
        0
    };
    let to = if y == last_corner(sel).1 {
        last_corner(sel).0 + 1
    } else {
        line.cells.len() as int
    };
    let text = visible_chars(columns_between(line.cells, from, to));
    if y < last_corner(sel).1 && !line.is_wrapped {
        text.push('\n')
    } else {
        text
    }
}

/// The selected text of the rows before `y`.
pub open spec fn text_before(lines: Seq<LineView>, sel: Selection, y: int) -> Seq<char>
    decreases y,
{
    if y <= first_corner(sel).1 {
        Seq::empty()
    } else if y - 1 > last_corner(sel).1 || y - 1 >= lines.len() {
        text_before(lines, sel, y - 1)
    } else {
        text_before(lines, sel, y - 1) + row_text(lines[y - 1], sel, y - 1)
    }
}

impl Screen {
    /// The text that the selection covers.
    pub open spec fn selected_text(self) -> Seq<char> {
        match self.selection {
            Some(sel) => text_before(
                self.history + self.grid,
                sel,
                (self.history + self.grid).len() as int,
            ),
            None => Seq::empty(),
        }
    }

    /// The first line that is shown, counted from the oldest line of the history.
    pub open spec fn first_shown(self) -> int {
        if self.offset >= self.history.len() {
            0
        } else {
            self.history.len() - self.offset
        }
    }
}

/// What is painted behind a cell.
#[derive(Clone, Copy, Debug, PartialEq, Eq, Structural)]
pub enum Backdrop {
    /// Nothing: the screen's own black shows.
    Plain,
    /// The cell's background colour.
    Filled(Color),
    /// The colour of selected text.
    Selected,
}

/// What is painted for a cell.
#[derive(Clone, Copy, Debug, PartialEq, Eq)]
pub struct CellPaint {
    pub backdrop: Backdrop,
    /// The character and its colour, where there is something to see.
    pub glyph: Option<(char, Color)>,
    pub bold: bool,
    /// The colour of the underline, where there is one.
    pub underline: Option<Color>,
}

/// What is painted for a cell that is selected or not.
pub open spec fn painted(cell: Cell, selected: bool) -> CellPaint {
    CellPaint {
        backdrop: if selected {
            Backdrop::Selected
        } else if cell.bg == (Color { r: 0, g: 0, b: 0 }) {
            Backdrop::Plain
        } else {
            Backdrop::Filled(cell.bg)
        },
        glyph: if cell.ch == ' ' || cell.ch == '\0' {
            None
        } else if selected {
            Some((cell.ch, Color { r: 255, g: 255, b: 255 }))
        } else {
            Some((cell.ch, cell.fg))
        },
        bold: cell.bold,
        underline: if cell.underline {
            Some(cell.fg)
        } else {
            None
        },
    }
}

impl Selection {
    /// Whether the selection covers a position.
    pub fn contains(&self, x: usize, y: usize) -> (b: bool)
        ensures
            b == covers(*self, (x, y)),
    {
        let (first, last) = self.corners();
        (first.1 < y || (first.1 == y && first.0 <= x)) && (y < last.1 || (y == last.1 && x
            <= last.0))
    }

    /// The corners in reading order.
    pub fn corners(&self) -> (r: ((usize, usize), (usize, usize)))
        ensures
            r.0 == first_corner(*self),
            r.1 == last_corner(*self),
    {
        let s = self.start;
        let e = self.end;
        if s.1 > e.1 || (s.1 == e.1 && s.0 > e.0) {
            (e, s)
        } else {
            (s, e)
        }
    }
}

/// Appends the characters of a stretch of cells to `out`.
fn push_visible(out: &mut String, cells: &Vec<Cell>, from: usize, to: usize)
    ensures
        final(out)@ == old(out)@ + visible_chars(
            columns_between(cells@, from as int, to as int),
        ),
{
    let end: usize = if to < cells.len() {
        to
    } else {
        cells.len()
    };
    let ghost start = out@;
    if from >= end {
        assert(out@ =~= start + Seq::<char>::empty());
        return;
    }
    let ghost part = cells@.subrange(from as int, end as int);
    let mut x: usize = from;
    assert(part.take(0) =~= Seq::empty());
    assert(out@ =~= start + visible_chars(part.take(0)));
    while x < end
        invariant
            from <= x <= end,
            end <= cells@.len(),
            part == cells@.subrange(from as int, end as int),
            out@ == start + visible_chars(part.take(x - from)),
        decreases end - x,
    {
        let ch: char = cells[x].ch;
        assert(part.take(x - from + 1).drop_last() =~= part.take(x - from));
        assert(part.take(x - from + 1).last() == cells@[x as int]);
        if ch != '\0' {
            out.push(ch);
            assert(out@ =~= start + visible_chars(part.take(x - from + 1)));
        }
        x = x + 1;
    }
    assert(part.take(end - from) =~= part);
}

pub proof fn lemma_text_settled(lines: Seq<LineView>, sel: Selection, y: int, z: int)
    requires
        y <= z,
        y > last_corner(sel).1 || y >= lines.len(),
    ensures
        text_before(lines, sel, z) == text_before(lines, sel, y),
    decreases z,
{
    if y < z {
        if z > first_corner(sel).1 {
            lemma_text_settled(lines, sel, y, z - 1);
        } else {
            assert(y <= first_corner(sel).1);
        }
    }
}

impl TerminalEmulator {
    /// The text that the selection covers.
    pub fn get_selected_text(&self) -> (text: String)
        ensures
            text@ == self@.selected_text(),
    {
        let mut result = String::new();
        if let Some(sel) = self.selection {
            let (first, last) = sel.corners();
            let ghost lines = self@.history + self@.grid;
            let ghost total = lines.len() as int;
            let mut y: usize = first.1;
            let mut more: bool = true;
            while more && (y < self.history.len() || y - self.history.len() < self.grid.len())
                invariant
                    first == first_corner(sel),
                    last == last_corner(sel),
                    first.1 <= y,
                    lines == self@.history + self@.grid,
                    total == lines.len(),
                    more ==> result@ == text_before(lines, sel, y as int) && y <= last.1,
                    !more ==> result@ == text_before(lines, sel, y + 1) && y == last.1,
                    y > first.1 ==> y < total || more,
                    self.history@.len() + self.grid@.len() == total,
                decreases (if more { 1int } else { 0int }), last.1 - y,
            {
                let line = if y < self.history.len() {
                    &self.history[y]
                } else {
                    &self.grid[y - self.history.len()]
                };
                assert(line@ == lines[y as int]);
                let from: usize = if y == first.1 {
                    first.0
                } else {
                    0
                };
                let ghost done = result@;
                if y == last.1 {
                    if last.0 < line.cells.len() {
                        push_visible(&mut result, &line.cells, from, last.0 + 1);
                    } else {
                        push_visible(&mut result, &line.cells, from, line.cells.len());
                        assert(columns_between(line@.cells, from as int, line.cells@.len() as int)
                            == columns_between(line@.cells, from as int, last.0 + 1));
                    }
                } else {
                    push_visible(&mut result, &line.cells, from, line.cells.len());
                }
                if y < last.1 && !line.is_wrapped {
                    result.push('\n');
                }
                assert(result@ =~= done + row_text(line@, sel, y as int));
                if y == last.1 {
                    more = false;
                } else {
                    y = y + 1;
                }
            }
            proof {
                if more {
                    if y <= total {
                        lemma_text_settled(lines, sel, y as int, total);
                        assert(y == total);
                    } else {
                        lemma_text_settled(lines, sel, total, y as int);
                    }
                } else {
                    if y + 1 <= total {
                        lemma_text_settled(lines, sel, y + 1, total);
                    } else {
                        lemma_text_settled(lines, sel, total, y + 1);
                    }
                }
            }
        }
        result
    }

    /// The first line that is shown, counted from the oldest line of the history.
    pub fn first_shown(&self) -> (y: usize)
        ensures
            y == self@.first_shown(),
    {
        if self.display_offset >= self.history.len() {
            0
        } else {
            self.history.len() - self.display_offset
        }
    }

    /// The line that shows `row` rows below the top of the view.
    pub fn absolute_row(&self, row: usize) -> (y: usize)
        requires
            self@.first_shown() + row <= usize::MAX,
        ensures
            y == self@.first_shown() + row,
    {
        self.first_shown() + row
    }

    /// What is painted at a position that holds a cell.
    pub fn paint_at(&self, x: usize, y: usize) -> (paint: Option<CellPaint>)
        ensures
            match paint {
                Some(p) => {
                    let lines = self@.history + self@.grid;
                    &&& y < lines.len()
                    &&& x < lines[y as int].cells.len()
                    &&& p == painted(
                        lines[y as int].cells[x as int],
                        self@.selection matches Some(sel) && covers(sel, (x, y)),
                    )
                },
                None => {
                    let lines = self@.history + self@.grid;
                    y >= lines.len() || x >= lines[y as int].cells.len()
                },
            },
    {
        let line = if y < self.history.len() {
            &self.history[y]
        } else if y - self.history.len() < self.grid.len() {
            &self.grid[y - self.history.len()]
        } else {
            return None;
        };
        assert(line@ == (self@.history + self@.grid)[y as int]);
        if x >= line.cells.len() {
            return None;
        }
        let cell = line.cells[x];
        let selected: bool = match self.selection {
            Some(sel) => sel.contains(x, y),
            None => false,
        };
        let backdrop = if selected {
            Backdrop::Selected
        } else if cell.bg == Color::black() {
            Backdrop::Plain
        } else {
            Backdrop::Filled(cell.bg)
        };
        let glyph = if cell.ch == ' ' || cell.ch == '\0' {
            None
        } else if selected {
            Some((cell.ch, Color::white()))
        } else {
            Some((cell.ch, cell.fg))
        };
        let underline = if cell.underline {
            Some(cell.fg)
        } else {
            None
        };
        Some(CellPaint { backdrop, glyph, bold: cell.bold, underline })
    }

    /// Whether the cursor is shown: only on the live screen.
    pub fn shows_cursor(&self) -> (b: bool)
        ensures
            b == (self@.offset == 0),
    {
        self.display_offset == 0
    }

    /// Whether a view of that size calls for another terminal size.
    pub fn wants_resize(&self, new_rows: usize, new_cols: usize) -> (b: bool)
        ensures
            b == (new_cols > 0 && new_rows > 0 && (new_cols != self@.cols || new_rows
                != self@.rows)),
    {
        new_cols > 0 && new_rows > 0 && (new_cols != self.cols || new_rows != self.rows)
    }
}

} // verus!
