//! The terminal emulator and its line operations.
use crate::terminal::cell::{blank_line, Cell, Color, Line, LineView, Selection};
use crate::terminal::screen::{erased_line, no_orphan, written_cells, Pen, Screen};
use crate::terminal::vt::{new_parser, parser_fed};
use crate::terminal::width::char_columns;
use std::collections::{HashSet, VecDeque};
use vstd::prelude::*;

verus! {

broadcast use vstd::std_specs::hash::group_hash_axioms;

/// Lines as mathematical values.
pub open spec fn lines_view(lines: Seq<Line>) -> Seq<LineView> {
    Seq::new(lines.len(), |i: int| lines[i]@)
}

/// Byte strings as mathematical values.
pub open spec fn byte_strings(items: Seq<Vec<u8>>) -> Seq<Seq<u8>> {
    Seq::new(items.len(), |i: int| items[i]@)
}

/// A terminal: a grid of cells with a cursor, the lines that scrolled off it, and the state of
/// the escape-sequence interpreter.
pub struct TerminalEmulator {
    pub cols: usize,
    pub rows: usize,
    /// Lines that scrolled off the top, oldest first.
    pub history: VecDeque<Line>,
    /// The lines on the screen, top first.
    pub grid: VecDeque<Line>,
    pub cursor_x: usize,
    pub cursor_y: usize,
    pub current_fg: Color,
    pub current_bg: Color,
    pub current_bold: bool,
    pub current_italic: bool,
    pub current_underline: bool,
    /// The first and last row of the scrolling region, counted from zero.
    pub scrolling_region: (usize, usize),
    pub parser: vte::Parser,
    pub ime_preedit: String,
    /// How many lines the view is scrolled back; zero shows the live screen.
    pub display_offset: usize,
    /// Replies of the terminal to the process, such as the cursor position.
    pub pending_responses: Vec<Vec<u8>>,
    pub selection: Option<Selection>,
    /// The last erase that was taken for the removal of prompt leftovers.
    pub last_csi: Option<(char, usize, bool)>,
    /// The row of a prompt that the cursor jumped up to.
    pub history_prompt_y: Option<usize>,
    /// For how many more control sequences that row counts.
    pub history_clear_timeout: usize,
    /// The rows that were printed to while it counted.
    pub history_printed_lines: HashSet<usize>,
}

impl View for TerminalEmulator {
    type V = Screen;

    open spec fn view(&self) -> Screen {
        Screen {
            cols: self.cols as int,
            rows: self.rows as int,
            history: lines_view(self.history@),
            grid: lines_view(self.grid@),
            cursor_x: self.cursor_x as int,
            cursor_y: self.cursor_y as int,
            pen: self.pen_view(),
            region: (self.scrolling_region.0 as int, self.scrolling_region.1 as int),
            fed: parser_fed(self.parser),
            preedit: self.ime_preedit@,
            offset: self.display_offset as int,
            responses: byte_strings(self.pending_responses@),
            selection: self.selection,
            last_csi: self.last_csi,
            prompt_y: self.history_prompt_y,
            timeout: self.history_clear_timeout as int,
            printed: self.history_printed_lines@,
        }
    }
}

/// A cell without the second half of a wide character.
pub(crate) fn without_orphan(cell: Cell) -> (r: Cell)
    ensures
        r == no_orphan(cell),
{
    if cell.ch == '\0' {
        Cell { ch: ' ', ..cell }
    } else {
        cell
    }
}

/// Writes a cell for a character of `w` columns into a line's cells.
fn write_cell(cells: &mut Vec<Cell>, x: usize, w: usize, cell: Cell)
    requires
        x < old(cells)@.len() <= isize::MAX,
    ensures
        final(cells)@ == written_cells(old(cells)@, x as int, w as int, cell),
{
    if x > 0 && cells[x].ch == '\0' {
        let left = cells[x - 1];
        cells.set(x - 1, Cell { ch: ' ', ..left });
    }
    if x + 1 < cells.len() {
        let right = cells[x + 1];
        let next = if w > 1 {
            Cell { ch: '\0', ..cell }
        } else {
            without_orphan(right)
        };
        cells.set(x + 1, next);
    }
    cells.set(x, cell);
    assert(cells@ =~= written_cells(old(cells)@, x as int, w as int, cell));
}

impl Default for TerminalEmulator {
    /// The usual 24 rows of 80 columns.
    fn default() -> (emu: Self)
        ensures
            emu@ == Screen::fresh(24, 80),
            emu@.wf(),
    {
        TerminalEmulator::new(24, 80)
    }
}

impl TerminalEmulator {
    /// The colours and attributes for new text.
    pub open spec fn pen_view(&self) -> Pen {
        Pen {
            fg: self.current_fg,
            bg: self.current_bg,
            bold: self.current_bold,
            italic: self.current_italic,
            underline: self.current_underline,
        }
    }

    /// A terminal with an untouched screen.
    pub fn new(rows: usize, cols: usize) -> (emu: TerminalEmulator)
        requires
            0 < rows <= isize::MAX,
            cols <= isize::MAX,
        ensures
            emu@ == Screen::fresh(rows as int, cols as int),
            emu@.wf(),
    {
        let mut grid: VecDeque<Line> = VecDeque::with_capacity(rows);
        let mut y: usize = 0;
        while y < rows
            invariant
                y <= rows,
                grid@.len() == y,
                forall|i: int| 0 <= i < y ==> (#[trigger] grid@[i])@ == blank_line(cols as int),
            decreases rows - y,
        {
            grid.push_back(Line::new(cols));
            y = y + 1;
        }
        let emu = TerminalEmulator {
            cols,
            rows,
            history: VecDeque::with_capacity(1000),
            grid,
            cursor_x: 0,
            cursor_y: 0,
            current_fg: Color::white(),
            current_bg: Color::black(),
            current_bold: false,
            current_italic: false,
            current_underline: false,
            scrolling_region: (0, rows - 1),
            parser: new_parser(),
            ime_preedit: String::new(),
            display_offset: 0,
            pending_responses: Vec::new(),
            selection: None,
            last_csi: None,
            history_prompt_y: None,
            history_clear_timeout: 0,
            history_printed_lines: HashSet::new(),
        };
        assert(emu@ =~= Screen::fresh(rows as int, cols as int));
        emu
    }

    /// Whether a stretch of text is selected.
    pub fn has_selection(&self) -> (b: bool)
        ensures
            b == self@.selection is Some,
    {
        self.selection.is_some()
    }

    /// Forgets the text that an input method is composing.
    pub fn clear_preedit(&mut self)
        ensures
            final(self)@ == (Screen { preedit: Seq::empty(), ..old(self)@ }),
    {
        self.ime_preedit = String::new();
    }

    /// What erased cells become.
    pub(crate) fn blank_cell(&self) -> (cell: Cell)
        ensures
            cell == self@.pen.blank(),
    {
        Cell {
            ch: ' ',
            fg: self.current_fg,
            bg: self.current_bg,
            bold: false,
            italic: false,
            underline: false,
        }
    }

    /// Takes row `y` out of the grid, to be put back with `put_line`.
    pub(crate) fn take_line(&mut self, y: usize) -> (line: Line)
        requires
            y < old(self).grid@.len(),
        ensures
            line == old(self).grid@[y as int],
            *final(self) == (TerminalEmulator { grid: final(self).grid, ..*old(self) }),
            final(self).grid@ == old(self).grid@.remove(y as int),
    {
        self.grid.remove(y).unwrap()
    }

    /// Puts a row back where `take_line` took it.
    pub(crate) fn put_line(&mut self, y: usize, line: Line)
        requires
            y <= old(self).grid@.len(),
        ensures
            *final(self) == (TerminalEmulator { grid: final(self).grid, ..*old(self) }),
            final(self).grid@ == old(self).grid@.insert(y as int, line),
    {
        self.grid.insert(y, line);
    }

    /// Marks row `y` as a continuation of the row above, or as a line of its own.
    pub(crate) fn mark_wrapped(&mut self, y: usize, is_wrapped: bool)
        requires
            y < old(self)@.grid.len(),
        ensures
            final(self)@ == old(self)@.with_line(
                y as int,
                LineView { is_wrapped, ..old(self)@.grid[y as int] },
            ),
    {
        let mut line = self.take_line(y);
        line.is_wrapped = is_wrapped;
        self.put_line(y, line);
        assert(self@.grid =~= old(self)@.with_line(
            y as int,
            LineView { is_wrapped, ..old(self)@.grid[y as int] },
        ).grid);
    }

    /// Scrolls the whole screen; the top line goes to the history.
    fn scroll_up_and_push_history(&mut self)
        requires
            old(self)@.wf(),
        ensures
            final(self)@ == old(self)@.scrolled_up(0, old(self)@.rows - 1),
    {
        if let Some(line) = self.grid.pop_front() {
            self.history.push_back(line);
            if self.history.len() > 10000 {
                let _ = self.history.pop_front();
            }
        }
        self.grid.push_back(Line::new(self.cols));
        assert(self@ =~= old(self)@.scrolled_up(0, old(self)@.rows - 1));
    }

    /// Scrolls rows `top` to `bottom` up by one.
    pub(crate) fn scroll_up_in_region(&mut self, top: usize, bottom: usize)
        requires
            old(self)@.wf(),
        ensures
            final(self)@ == old(self)@.scrolled_up(top as int, bottom as int),
            final(self)@.wf(),
    {
        if top == 0 && bottom == self.rows - 1 {
            self.scroll_up_and_push_history();
        } else if top < bottom && bottom < self.rows {
            let _ = self.grid.remove(top);
            self.grid.insert(bottom, Line::new(self.cols));
            assert(self@ =~= old(self)@.scrolled_up(top as int, bottom as int));
        }
    }

    /// Scrolls rows `top` to `bottom` down by one.
    pub(crate) fn scroll_down_in_region(&mut self, top: usize, bottom: usize)
        requires
            old(self)@.wf(),
        ensures
            final(self)@ == old(self)@.scrolled_down(top as int, bottom as int),
            final(self)@.wf(),
    {
        if top < bottom && bottom < self.rows {
            let _ = self.grid.remove(bottom);
            self.grid.insert(top, Line::new(self.cols));
            assert(self@ =~= old(self)@.scrolled_down(top as int, bottom as int));
        }
    }

    /// Erases row `row` in one of the erase modes.
    pub(crate) fn clear_line(&mut self, row: usize, mode: usize)
        requires
            old(self)@.wf(),
            mode == 0 ==> old(self)@.cursor_on_line(),
        ensures
            final(self)@ == old(self)@.line_erased(row as int, mode as int),
            final(self)@.wf(),
    {
        let blank = self.blank_cell();
        if row < self.grid.len() && mode <= 2 {
            let mut line = self.take_line(row);
            let ghost before = line@;
            assert(old(self)@.grid[row as int] == before);
            let x: usize = self.cursor_x;
            if mode == 0 {
                if x > 0 && line.cells[x].ch == '\0' {
                    line.cells.set(x - 1, blank);
                }
                let ghost start = line.cells@;
                let mut i: usize = x;
                while i < self.cols
                    invariant
                        i <= self.cols || i == x,
                        x <= i,
                        line.cells@.len() == self.cols,
                        start.len() == self.cols,
                        forall|k: int|
                            0 <= k < self.cols ==> #[trigger] line.cells@[k] == (if x <= k < i {
                                blank
                            } else {
                                start[k]
                            }),
                        line.is_wrapped == before.is_wrapped,
                    decreases self.cols - i,
                {
                    line.cells.set(i, blank);
                    i = i + 1;
                }
                if x == 0 {
                    line.is_wrapped = false;
                }
                assert(line@ =~= erased_line(before, x as int, blank, 0));
            } else if mode == 1 {
                let ghost start = line.cells@;
                let mut i: usize = 0;
                while i <= x && i < self.cols
                    invariant
                        i <= self.cols,
                        i <= x + 1,
                        x <= isize::MAX || x <= 3,
                        line.cells@.len() == self.cols,
                        start.len() == self.cols,
                        forall|k: int|
                            0 <= k < self.cols ==> #[trigger] line.cells@[k] == (if k < i {
                                blank
                            } else {
                                start[k]
                            }),
                        line.is_wrapped == before.is_wrapped,
                    decreases self.cols - i,
                {
                    line.cells.set(i, blank);
                    i = i + 1;
                }
                if x + 1 < self.cols && line.cells[x + 1].ch == '\0' {
                    line.cells.set(x + 1, blank);
                }
                assert(line@ =~= erased_line(before, x as int, blank, 1));
            } else {
                let mut i: usize = 0;
                while i < self.cols
                    invariant
                        i <= self.cols,
                        line.cells@.len() == self.cols,
                        forall|k: int| 0 <= k < i ==> #[trigger] line.cells@[k] == blank,
                    decreases self.cols - i,
                {
                    line.cells.set(i, blank);
                    i = i + 1;
                }
                line.is_wrapped = false;
                assert(line@ =~= erased_line(before, x as int, blank, 2));
            }
            self.put_line(row, line);
            assert(self@.grid =~= old(self)@.line_erased(row as int, mode as int).grid);
        } else {
            assert(self@.grid =~= old(self)@.line_erased(row as int, mode as int).grid);
        }
    }

    /// Erases the screen below the cursor, above it, or whole.
    pub(crate) fn clear_screen(&mut self, mode: usize)
        requires
            old(self)@.wf(),
            mode == 0 ==> old(self)@.cursor_on_line(),
        ensures
            final(self)@ == old(self)@.erased(mode as int),
            final(self)@.wf(),
    {
        let ghost before = self@;
        let y0: usize = self.cursor_y;
        if mode == 0 {
            self.clear_line(y0, 0);
            let mut y: usize = y0 + 1;
            while y < self.rows
                invariant
                    y0 < y <= self.rows,
                    before.wf(),
                    y0 == before.cursor_y,
                    self@ == (Screen { grid: self@.grid, ..before }),
                    self@.wf(),
                    forall|k: int|
                        0 <= k < before.rows ==> #[trigger] self@.grid[k] == (if k == y0 {
                            erased_line(before.grid[k], before.cursor_x, before.pen.blank(), 0)
                        } else if y0 < k < y {
                            erased_line(before.grid[k], before.cursor_x, before.pen.blank(), 2)
                        } else {
                            before.grid[k]
                        }),
                decreases self.rows - y,
            {
                self.clear_line(y, 2);
                y = y + 1;
            }
            assert(self@ =~= before.erased(0));
        } else if mode == 1 {
            let mut y: usize = 0;
            while y < y0
                invariant
                    y <= y0,
                    before.wf(),
                    y0 == before.cursor_y,
                    self@ == (Screen { grid: self@.grid, ..before }),
                    self@.wf(),
                    forall|k: int|
                        0 <= k < before.rows ==> #[trigger] self@.grid[k] == (if k < y {
                            erased_line(before.grid[k], before.cursor_x, before.pen.blank(), 2)
                        } else {
                            before.grid[k]
                        }),
                decreases y0 - y,
            {
                self.clear_line(y, 2);
                y = y + 1;
            }
            self.clear_line(y0, 1);
            assert(self@ =~= before.erased(1));
        } else if mode == 2 {
            let mut y: usize = 0;
            while y < self.rows
                invariant
                    y <= self.rows,
                    before.wf(),
                    self@ == (Screen { grid: self@.grid, ..before }),
                    self@.wf(),
                    forall|k: int|
                        0 <= k < before.rows ==> #[trigger] self@.grid[k] == (if k < y {
                            erased_line(before.grid[k], before.cursor_x, before.pen.blank(), 2)
                        } else {
                            before.grid[k]
                        }),
                decreases self.rows - y,
            {
                self.clear_line(y, 2);
                y = y + 1;
            }
            self.cursor_x = 0;
            self.cursor_y = 0;
            assert(self@ =~= before.erased(2));
        }
    }

    /// Moves the cursor to the next line where a character finds no room.
    fn wrap_line(&mut self)
        requires
            old(self)@.wf(),
        ensures
            final(self)@ == old(self)@.wrapped(),
            final(self)@.wf(),
            final(self)@.cursor_x == 0,
    {
        self.cursor_x = 0;
        let top: usize = self.scrolling_region.0;
        let bottom: usize = self.scrolling_region.1;
        if self.cursor_y < bottom {
            self.cursor_y = self.cursor_y + 1;
            let y: usize = self.cursor_y;
            self.clear_line(y, 0);
            self.mark_wrapped(y, true);
        } else if self.cursor_y == bottom {
            self.scroll_up_in_region(top, bottom);
            self.clear_line(bottom, 0);
            self.mark_wrapped(bottom, true);
        } else if self.cursor_y < self.rows - 1 {
            self.cursor_y = self.cursor_y + 1;
        }
    }

    /// Places a character at the cursor, where the line has room for it.
    fn place_char(&mut self, c: char, w: usize)
        requires
            old(self)@.wf(),
            w <= 3,
            old(self)@.cursor_x + w <= old(self)@.cols || old(self)@.cursor_x == 0,
        ensures
            final(self)@ == old(self)@.placed(c, w as int),
            final(self)@.wf(),
    {
        let ghost before = self@;
        if self.cursor_x < self.cols {
            let x: usize = self.cursor_x;
            let y: usize = self.cursor_y;
            if self.history_clear_timeout > 0 {
                let _ = self.history_printed_lines.insert(y);
            }
            let cell = Cell {
                ch: c,
                fg: self.current_fg,
                bg: self.current_bg,
                bold: self.current_bold,
                italic: self.current_italic,
                underline: self.current_underline,
            };
            let mut line = self.take_line(y);
            write_cell(&mut line.cells, x, w, cell);
            self.put_line(y, line);
            self.cursor_x = x + w;
            assert(self@.grid =~= before.placed(c, w as int).grid);
        }
    }

    /// Prints a character that takes `w` columns.
    pub fn put_char(&mut self, c: char, w: usize)
        requires
            old(self)@.wf(),
            w <= 3,
        ensures
            final(self)@ == old(self)@.put(c, w as int),
            final(self)@.wf(),
    {
        if self.cursor_x + w > self.cols {
            self.wrap_line();
        }
        self.place_char(c, w);
    }

    /// Prints a character.
    pub fn print(&mut self, c: char)
        requires
            old(self)@.wf(),
        ensures
            final(self)@ == old(self)@.print(c),
            final(self)@.wf(),
    {
        let w: usize = char_columns(c);
        self.put_char(c, w);
    }

    /// Carries out a control code.
    pub fn execute(&mut self, byte: u8)
        requires
            old(self)@.wf(),
            old(self)@.accepts(crate::terminal::vt::Action::Execute(byte)),
        ensures
            final(self)@ == old(self)@.execute(byte),
            final(self)@.wf(),
    {
        if byte == 10 {
            let top: usize = self.scrolling_region.0;
            let bottom: usize = self.scrolling_region.1;
            if self.cursor_y == bottom {
                self.scroll_up_in_region(top, bottom);
            } else if self.cursor_y < self.rows - 1 {
                self.cursor_y = self.cursor_y + 1;
            }
            let y: usize = self.cursor_y;
            self.mark_wrapped(y, false);
        } else if byte == 13 {
            self.cursor_x = 0;
        } else if byte == 8 {
            if self.cursor_x > 0 {
                self.cursor_x = self.cursor_x - 1;
            } else if self.cursor_y > 0 && self.grid[self.cursor_y].is_wrapped {
                self.cursor_y = self.cursor_y - 1;
                self.cursor_x = self.cols - 1;
            }
        } else if byte == 9 {
            let ghost before = self@;
            let spaces: usize = 8 - self.cursor_x % 8;
            let mut i: usize = 0;
            while i < spaces
                invariant
                    i <= spaces,
                    self@.wf(),
                    self@ == before.spaces(i as int),
                decreases spaces - i,
            {
                let w: usize = char_columns(' ');
                self.put_char(' ', w);
                i = i + 1;
            }
        }
    }
}

} // verus!
