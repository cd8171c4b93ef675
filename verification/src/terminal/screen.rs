//! The terminal as a mathematical value, and what each operation makes of it.
use crate::terminal::cell::{
    ansi_palette, blank_line, bright_palette, palette_256, Cell, Color, LineView, Selection,
};
use crate::terminal::vt::{params_nonempty, Action};
use crate::terminal::width::columns;
use crate::text::decimal;
use vstd::prelude::*;

verus! {

/// How many lines the history keeps when the screen scrolls.
pub open spec fn history_limit() -> int {
    10000
}

/// The colours and attributes that new text gets.
#[derive(Clone, Copy)]
pub struct Pen {
    pub fg: Color,
    pub bg: Color,
    pub bold: bool,
    pub italic: bool,
    pub underline: bool,
}

/// The pen of a fresh terminal: plain white on black.
pub open spec fn default_pen() -> Pen {
    Pen {
        fg: Color { r: 255, g: 255, b: 255 },
        bg: Color { r: 0, g: 0, b: 0 },
        bold: false,
        italic: false,
        underline: false,
    }
}

impl Pen {
    /// A cell that shows `ch` with this pen.
    pub open spec fn cell(self, ch: char) -> Cell {
        Cell {
            ch,
            fg: self.fg,
            bg: self.bg,
            bold: self.bold,
            italic: self.italic,
            underline: self.underline,
        }
    }

    /// What erased cells become: a space in the pen's colours without attributes.
    pub open spec fn blank(self) -> Cell {
        Cell { ch: ' ', fg: self.fg, bg: self.bg, bold: false, italic: false, underline: false }
    }
}

/// The state of a terminal.
#[verifier::ext_equal]
pub struct Screen {
    pub cols: int,
    pub rows: int,
    /// Lines that scrolled off the top, oldest first.
    pub history: Seq<LineView>,
    /// The lines on the screen, top first.
    pub grid: Seq<LineView>,
    pub cursor_x: int,
    pub cursor_y: int,
    pub pen: Pen,
    /// The first and last row of the scrolling region.
    pub region: (int, int),
    /// What the escape-sequence parser has been given.
    pub fed: Seq<Seq<u8>>,
    pub preedit: Seq<char>,
    /// How many lines the view is scrolled back.
    pub offset: int,
    /// Replies that wait to be sent.
    pub responses: Seq<Seq<u8>>,
    pub selection: Option<Selection>,
    pub last_csi: Option<(char, usize, bool)>,
    pub prompt_y: Option<usize>,
    pub timeout: int,
    pub printed: Set<usize>,
}

/// The erase modes of a line: from the cursor to the end, from the start to the cursor, or all.
/// A wide character that the edge cuts in half goes as a whole.
pub open spec fn erased_line(line: LineView, x: int, blank: Cell, mode: int) -> LineView {
    if mode == 0 {
        LineView {
            cells: Seq::new(
                line.cells.len(),
                |i: int|
                    if i >= x || (i == x - 1 && line.cells[x].ch == '\0') {
                        blank
                    } else {
                        line.cells[i]
                    },
            ),
            is_wrapped: line.is_wrapped && x != 0,
        }
    } else if mode == 1 {
        LineView {
            cells: Seq::new(
                line.cells.len(),
                |i: int|
                    if i <= x || (i == x + 1 && line.cells[i].ch == '\0') {
                        blank
                    } else {
                        line.cells[i]
                    },
            ),
            is_wrapped: line.is_wrapped,
        }
    } else if mode == 2 {
        LineView { cells: Seq::new(line.cells.len(), |i: int| blank), is_wrapped: false }
    } else {
        line
    }
}

/// A cell that is blanked when only the second half of its wide character would stay.
pub open spec fn no_orphan(cell: Cell) -> Cell {
    if cell.ch == '\0' {
        Cell { ch: ' ', ..cell }
    } else {
        cell
    }
}

/// A line's cells with `n` blanks pushed in at `x`; what moves past the end is lost. A wide
/// character that is cut in half turns to spaces.
pub open spec fn inserted_cells(cells: Seq<Cell>, x: int, n: int, blank: Cell) -> Seq<Cell> {
    Seq::new(
        cells.len(),
        |i: int|
            if i == x - 1 && cells[x].ch == '\0' {
                Cell { ch: ' ', ..cells[i] }
            } else if i < x {
                cells[i]
            } else if i < x + n {
                blank
            } else if i == x + n {
                no_orphan(cells[i - n])
            } else {
                cells[i - n]
            },
    )
}

/// A line's cells with `n` of them taken out at `x`; blanks come in at the end. A wide character
/// that is cut in half turns to spaces.
pub open spec fn deleted_cells(cells: Seq<Cell>, x: int, n: int, blank: Cell) -> Seq<Cell> {
    Seq::new(
        cells.len(),
        |i: int|
            if i == x - 1 && cells[x].ch == '\0' {
                Cell { ch: ' ', ..cells[i] }
            } else if i < x {
                cells[i]
            } else if i + n >= cells.len() {
                blank
            } else if i == x {
                no_orphan(cells[i + n])
            } else {
                cells[i + n]
            },
    )
}

/// A line's cells with `cell` written at `x`, over the `w` columns of its character. Halves of
/// wide characters that it overwrites leave a space behind.
pub open spec fn written_cells(cells: Seq<Cell>, x: int, w: int, cell: Cell) -> Seq<Cell> {
    Seq::new(
        cells.len(),
        |i: int|
            if i == x - 1 && cells[x].ch == '\0' {
                Cell { ch: ' ', ..cells[i] }
            } else if i == x {
                cell
            } else if i == x + 1 {
                if w > 1 {
                    Cell { ch: '\0', ..cell }
                } else {
                    no_orphan(cells[i])
                }
            } else {
                cells[i]
            },
    )
}

/// The row after the wrapped rows that start at `y`: wrapped rows and the first unwrapped one.
pub open spec fn wrap_run_end(grid: Seq<LineView>, y: int) -> int
    decreases grid.len() - y,
{
    if y >= grid.len() || y < 0 {
        y
    } else if grid[y].is_wrapped {
        wrap_run_end(grid, y + 1)
    } else {
        y + 1
    }
}

/// The first value of parameter `i`, or `default` where there is none.
pub open spec fn param_or(params: Seq<Seq<u16>>, i: int, default: u16) -> u16 {
    if 0 <= i < params.len() && params[i].len() > 0 {
        params[i][0]
    } else {
        default
    }
}

/// A repeat count: at least one.
pub open spec fn at_least_one(n: int) -> int {
    if n < 1 {
        1
    } else {
        n
    }
}

/// `a - b`, but not below zero.
pub open spec fn minus(a: int, b: int) -> int {
    if a < b {
        0
    } else {
        a - b
    }
}

/// The smaller of two numbers.
pub open spec fn least(a: int, b: int) -> int {
    if a < b {
        a
    } else {
        b
    }
}

/// The colour that the parameters from `i` on describe (`5;n` for a palette entry, `2;r;g;b` for
/// channels), and the parameter to go on with.
pub open spec fn extended_color(params: Seq<Seq<u16>>, i: int) -> (Option<Color>, int) {
    if i >= params.len() {
        (None, i)
    } else if params[i].len() == 0 {
        (None, i + 1)
    } else if params[i][0] == 5 {
        if i + 1 >= params.len() {
            (None, i + 1)
        } else if params[i + 1].len() == 0 {
            (None, i + 2)
        } else {
            (Some(palette_256(params[i + 1][0] as u8)), i + 2)
        }
    } else if params[i][0] == 2 {
        if i + 1 >= params.len() {
            (None, i + 1)
        } else if params[i + 1].len() == 0 || i + 2 >= params.len() {
            (None, i + 2)
        } else if params[i + 2].len() == 0 || i + 3 >= params.len() {
            (None, i + 3)
        } else if params[i + 3].len() == 0 {
            (None, i + 4)
        } else {
            (
                Some(
                    Color {
                        r: params[i + 1][0] as u8,
                        g: params[i + 2][0] as u8,
                        b: params[i + 3][0] as u8,
                    },
                ),
                i + 4,
            )
        }
    } else {
        (None, i + 1)
    }
}

/// The pen after one plain rendition parameter.
pub open spec fn rendition(pen: Pen, p: int) -> Pen {
    if p == 0 {
        default_pen()
    } else if p == 1 {
        Pen { bold: true, ..pen }
    } else if p == 3 {
        Pen { italic: true, ..pen }
    } else if p == 4 {
        Pen { underline: true, ..pen }
    } else if p == 22 {
        Pen { bold: false, ..pen }
    } else if p == 23 {
        Pen { italic: false, ..pen }
    } else if p == 24 {
        Pen { underline: false, ..pen }
    } else if 30 <= p <= 37 {
        Pen { fg: ansi_palette(p - 30), ..pen }
    } else if p == 39 {
        Pen { fg: default_pen().fg, ..pen }
    } else if 40 <= p <= 47 {
        Pen { bg: ansi_palette(p - 40), ..pen }
    } else if p == 49 {
        Pen { bg: default_pen().bg, ..pen }
    } else if 90 <= p <= 97 {
        Pen { fg: bright_palette(p - 90), ..pen }
    } else if 100 <= p <= 107 {
        Pen { bg: bright_palette(p - 100), ..pen }
    } else {
        pen
    }
}

/// The pen after the rendition parameters from `i` on.
pub open spec fn renditions(pen: Pen, params: Seq<Seq<u16>>, i: int) -> Pen
    decreases params.len() - i,
{
    if i >= params.len() || i < 0 {
        pen
    } else {
        let p = params[i][0] as int;
        if p == 38 || p == 48 {
            let (color, next) = extended_color(params, i + 1);
            let changed = match color {
                Some(c) => if p == 38 {
                    Pen { fg: c, ..pen }
                } else {
                    Pen { bg: c, ..pen }
                },
                None => pen,
            };
            renditions(changed, params, next)
        } else {
            renditions(rendition(pen, p), params, i + 1)
        }
    }
}

/// The reply to a request for the cursor position.
pub open spec fn cursor_report(x: int, y: int) -> Seq<char> {
    seq!['\u{1b}', '['] + decimal((y + 1) as nat) + seq![';'] + decimal((x + 1) as nat) + seq!['R']
}

/// ASCII text as bytes.
pub open spec fn ascii_bytes(s: Seq<char>) -> Seq<u8> {
    Seq::new(s.len(), |i: int| s[i] as u8)
}

/// The reply to a request for the device attributes.
pub open spec fn device_attributes() -> Seq<u8> {
    seq![0x1bu8, 0x5b, 0x3f, 0x31, 0x3b, 0x32, 0x63]
}

impl Screen {
    /// What every reachable terminal satisfies: the grid has its shape, and the cursor, the
    /// scrolling region and the sizes are in range.
    pub open spec fn wf(self) -> bool {
        &&& 0 < self.rows <= isize::MAX
        &&& 0 <= self.cols <= isize::MAX
        &&& self.grid.len() == self.rows
        &&& forall|y: int|
            0 <= y < self.grid.len() ==> (#[trigger] self.grid[y]).cells.len() == self.cols
        &&& 0 <= self.cursor_y < self.rows
        &&& 0 <= self.cursor_x
        &&& self.cursor_x <= self.cols || self.cursor_x <= 3
        &&& 0 <= self.region.0
        &&& 0 <= self.region.1 < self.rows
        &&& self.timeout >= 0
        &&& 0 <= self.offset
    }

    /// A fresh terminal.
    pub open spec fn fresh(rows: int, cols: int) -> Screen {
        Screen {
            cols,
            rows,
            history: Seq::empty(),
            grid: Seq::new(rows as nat, |y: int| blank_line(cols)),
            cursor_x: 0,
            cursor_y: 0,
            pen: default_pen(),
            region: (0, rows - 1),
            fed: Seq::empty(),
            preedit: Seq::empty(),
            offset: 0,
            responses: Seq::empty(),
            selection: None,
            last_csi: None,
            prompt_y: None,
            timeout: 0,
            printed: Set::empty(),
        }
    }

    /// This terminal with another line in row `y`.
    pub open spec fn with_line(self, y: int, line: LineView) -> Screen {
        Screen { grid: self.grid.update(y, line), ..self }
    }

    /// Rows `top` to `bottom` move up by one. Where they are the whole screen, the top line goes
    /// to the history, which drops its oldest line when it is over its limit.
    pub open spec fn scrolled_up(self, top: int, bottom: int) -> Screen {
        if top == 0 && bottom == self.rows - 1 {
            let longer = self.history.push(self.grid[0]);
            Screen {
                history: if longer.len() > history_limit() {
                    longer.drop_first()
                } else {
                    longer
                },
                grid: self.grid.drop_first().push(blank_line(self.cols)),
                ..self
            }
        } else if top < bottom < self.rows {
            Screen {
                grid: self.grid.remove(top).insert(bottom, blank_line(self.cols)),
                ..self
            }
        } else {
            self
        }
    }

    /// Rows `top` to `bottom` move down by one; the last is lost.
    pub open spec fn scrolled_down(self, top: int, bottom: int) -> Screen {
        if top < bottom < self.rows {
            Screen {
                grid: self.grid.remove(bottom).insert(top, blank_line(self.cols)),
                ..self
            }
        } else {
            self
        }
    }

    /// `n` steps of `scrolled_up`.
    pub open spec fn scrolled_up_by(self, top: int, bottom: int, n: int) -> Screen
        decreases n,
    {
        if n <= 0 {
            self
        } else {
            self.scrolled_up_by(top, bottom, n - 1).scrolled_up(top, bottom)
        }
    }

    /// `n` steps of `scrolled_down`.
    pub open spec fn scrolled_down_by(self, top: int, bottom: int, n: int) -> Screen
        decreases n,
    {
        if n <= 0 {
            self
        } else {
            self.scrolled_down_by(top, bottom, n - 1).scrolled_down(top, bottom)
        }
    }

    /// Row `y` erased in one of the erase modes.
    pub open spec fn line_erased(self, y: int, mode: int) -> Screen {
        if 0 <= y < self.grid.len() {
            self.with_line(y, erased_line(self.grid[y], self.cursor_x, self.pen.blank(), mode))
        } else {
            self
        }
    }

    /// The screen erased below the cursor, above it, or whole; the last also homes the cursor.
    pub open spec fn erased(self, mode: int) -> Screen {
        let part = |y: int|
            {
                if mode == 0 && y < self.cursor_y || mode == 1 && y > self.cursor_y {
                    3int
                } else if mode < 2 && y == self.cursor_y {
                    mode
                } else {
                    2int
                }
            };
        if mode == 0 || mode == 1 || mode == 2 {
            Screen {
                grid: Seq::new(
                    self.grid.len(),
                    |y: int|
                        erased_line(self.grid[y], self.cursor_x, self.pen.blank(), part(y)),
                ),
                cursor_x: if mode == 2 {
                    0
                } else {
                    self.cursor_x
                },
                cursor_y: if mode == 2 {
                    0
                } else {
                    self.cursor_y
                },
                ..self
            }
        } else {
            self
        }
    }

    /// The cursor goes to the start of the next line, scrolling where it stands on the region's
    /// last row. The line reached is erased and marked as a continuation, unless the cursor was
    /// below the region.
    pub open spec fn wrapped(self) -> Screen {
        let home = Screen { cursor_x: 0, ..self };
        let (top, bottom) = self.region;
        if self.cursor_y < bottom {
            let down = Screen { cursor_y: self.cursor_y + 1, ..home };
            let clean = down.line_erased(down.cursor_y, 0);
            clean.with_line(
                down.cursor_y,
                LineView { is_wrapped: true, ..clean.grid[down.cursor_y] },
            )
        } else if self.cursor_y == bottom {
            let clean = home.scrolled_up(top, bottom).line_erased(bottom, 0);
            clean.with_line(bottom, LineView { is_wrapped: true, ..clean.grid[bottom] })
        } else if self.cursor_y < self.rows - 1 {
            Screen { cursor_y: self.cursor_y + 1, ..home }
        } else {
            home
        }
    }

    /// A character of `w` columns is put at the cursor where the cursor is on the screen.
    pub open spec fn placed(self, c: char, w: int) -> Screen {
        if self.cursor_x < self.cols {
            Screen {
                grid: self.grid.update(
                    self.cursor_y,
                    LineView {
                        cells: written_cells(
                            self.grid[self.cursor_y].cells,
                            self.cursor_x,
                            w,
                            self.pen.cell(c),
                        ),
                        is_wrapped: self.grid[self.cursor_y].is_wrapped,
                    },
                ),
                cursor_x: self.cursor_x + w,
                printed: if self.timeout > 0 {
                    self.printed.insert(self.cursor_y as usize)
                } else {
                    self.printed
                },
                ..self
            }
        } else {
            self
        }
    }

    /// A character of `w` columns is printed, on the next line where this one has no room.
    pub open spec fn put(self, c: char, w: int) -> Screen {
        if self.cursor_x + w > self.cols {
            self.wrapped().placed(c, w)
        } else {
            self.placed(c, w)
        }
    }

    /// A character is printed.
    pub open spec fn print(self, c: char) -> Screen {
        self.put(c, columns(c))
    }

    /// `n` spaces are printed.
    pub open spec fn spaces(self, n: int) -> Screen
        decreases n,
    {
        if n <= 0 {
            self
        } else {
            self.spaces(n - 1).put(' ', 1)
        }
    }

    /// A line feed.
    pub open spec fn line_feed(self) -> Screen {
        let (top, bottom) = self.region;
        let moved = if self.cursor_y == bottom {
            self.scrolled_up(top, bottom)
        } else if self.cursor_y < self.rows - 1 {
            Screen { cursor_y: self.cursor_y + 1, ..self }
        } else {
            self
        };
        moved.with_line(
            moved.cursor_y,
            LineView { is_wrapped: false, ..moved.grid[moved.cursor_y] },
        )
    }

    /// A backspace: one column left, or to the end of the line that this one continues.
    pub open spec fn backspace(self) -> Screen {
        if self.cursor_x > 0 {
            Screen { cursor_x: self.cursor_x - 1, ..self }
        } else if self.cursor_y > 0 && self.grid[self.cursor_y].is_wrapped {
            Screen { cursor_y: self.cursor_y - 1, cursor_x: self.cols - 1, ..self }
        } else {
            self
        }
    }

    /// A control code: line feed, carriage return, backspace, or a tab to the next multiple of
    /// eight columns. Others do nothing.
    pub open spec fn execute(self, byte: u8) -> Screen {
        if byte == 10 {
            self.line_feed()
        } else if byte == 13 {
            Screen { cursor_x: 0, ..self }
        } else if byte == 8 {
            self.backspace()
        } else if byte == 9 {
            self.spaces(8 - self.cursor_x % 8)
        } else {
            self
        }
    }

    /// The cursor is placed at 1-based row `y` and column `x`, both clamped to the screen. A jump
    /// upwards starts the watch for leftovers of an edited prompt, and clears the rows that
    /// continue the row jumped to.
    pub open spec fn moved_to(self, y: int, x: int) -> Screen {
        let new_y = least(self.rows - 1, minus(y, 1));
        let watched = if new_y < self.cursor_y {
            Screen {
                prompt_y: Some(new_y as usize),
                timeout: 30,
                printed: Set::empty(),
                grid: if self.grid[new_y].is_wrapped {
                    Seq::new(
                        self.grid.len(),
                        |i: int|
                            if new_y < i < wrap_run_end(self.grid, new_y + 1) {
                                erased_line(self.grid[i], self.cursor_x, self.pen.blank(), 2)
                            } else {
                                self.grid[i]
                            },
                    )
                } else {
                    self.grid
                },
                ..self
            }
        } else {
            self
        };
        Screen {
            cursor_y: new_y,
            cursor_x: least(self.cols - 1, minus(x, 1)),
            grid: watched.grid.update(
                new_y,
                LineView { is_wrapped: false, ..watched.grid[new_y] },
            ),
            ..watched
        }
    }

    /// Whether an erase of characters falls on or below a prompt that the cursor jumped up to.
    pub open spec fn erases_prompt(self) -> bool {
        match self.prompt_y {
            Some(p) => self.cursor_y >= p,
            None => false,
        }
    }

    /// Such an erase clears the rest of a row that was printed to since the jump, and the whole
    /// of another row.
    pub open spec fn prompt_erased(self, n: int) -> Screen {
        let mode = if self.printed.contains(self.cursor_y as usize) {
            0int
        } else {
            2int
        };
        Screen {
            last_csi: Some(('X', n as usize, true)),
            ..self.line_erased(self.cursor_y, mode)
        }
    }

    /// The cursor goes right by `n`. After an erase of prompt leftovers with the same count, the
    /// row is cleared first.
    pub open spec fn forward(self, n: int) -> Screen {
        let cleared = if self.last_csi == Some(('X', n as usize, true)) {
            self.line_erased(self.cursor_y, 2)
        } else {
            self
        };
        Screen { cursor_x: least(self.cols - 1, self.cursor_x + n), ..cleared }
    }

    /// A new scrolling region from 1-based rows, where it has at least two rows.
    pub open spec fn with_region(self, top: int, bottom: int) -> Screen {
        let t = minus(top, 1);
        let b = least(minus(bottom, 1), self.rows - 1);
        if t < b {
            Screen { region: (t, b), ..self }
        } else {
            self
        }
    }

    /// What a control sequence does, apart from the countdown of the prompt watch.
    pub open spec fn csi_effect(self, params: Seq<Seq<u16>>, action: char) -> Screen {
        let p = param_or(params, 0, 0) as int;
        let n = at_least_one(p);
        let y = self.cursor_y;
        let x = self.cursor_x;
        let blank = self.pen.blank();
        if action == '@' {
            self.with_line(
                y,
                LineView {
                    cells: inserted_cells(self.grid[y].cells, x, n, blank),
                    ..self.grid[y]
                },
            )
        } else if action == 'X' || action == 'P' {
            self.with_line(
                y,
                LineView { cells: deleted_cells(self.grid[y].cells, x, n, blank), ..self.grid[y] },
            )
        } else if action == 'A' {
            Screen { cursor_y: minus(y, n), ..self }
        } else if action == 'B' {
            Screen { cursor_y: least(self.rows - 1, y + n), ..self }
        } else if action == 'C' {
            self.forward(n)
        } else if action == 'D' {
            Screen { cursor_x: minus(x, n), ..self }
        } else if action == 'H' || action == 'f' {
            self.moved_to(p, param_or(params, 1, 1) as int)
        } else if action == 'm' {
            Screen { pen: renditions(self.pen, params, 0), ..self }
        } else if action == 'J' {
            self.erased(p)
        } else if action == 'K' {
            self.line_erased(y, p)
        } else if action == 'L' {
            self.scrolled_down_by(y, self.region.1, n)
        } else if action == 'M' {
            self.scrolled_up_by(y, self.region.1, n)
        } else if action == 'S' {
            self.scrolled_up_by(self.region.0, self.region.1, n)
        } else if action == 'T' {
            self.scrolled_down_by(self.region.0, self.region.1, n)
        } else if action == 'r' {
            self.with_region(p, param_or(params, 1, self.rows as u16) as int)
        } else if action == 'n' && p == 6 {
            Screen { responses: self.responses.push(ascii_bytes(cursor_report(x, y))), ..self }
        } else if action == 'c' {
            Screen { responses: self.responses.push(device_attributes()), ..self }
        } else {
            self
        }
    }

    /// One control sequence less before the prompt watch ends.
    pub open spec fn ticked(self) -> Screen {
        if self.timeout > 0 {
            Screen {
                timeout: self.timeout - 1,
                prompt_y: if self.timeout == 1 {
                    None
                } else {
                    self.prompt_y
                },
                ..self
            }
        } else {
            self
        }
    }

    /// A control sequence. One with intermediates, or one that was cut short, does nothing.
    pub open spec fn csi(
        self,
        params: Seq<Seq<u16>>,
        intermediates: Seq<u8>,
        ignore: bool,
        action: char,
    ) -> Screen {
        if ignore || intermediates.len() > 0 {
            self
        } else if action == 'X' && self.erases_prompt() {
            self.prompt_erased(param_or(params, 0, 0) as int)
        } else {
            self.csi_effect(params, action).ticked()
        }
    }

    /// Whether the cursor's column can be read: it is the first one, or on the screen. After the
    /// last column was printed to, the cursor stands beyond it.
    pub open spec fn cursor_on_line(self) -> bool {
        self.cursor_x == 0 || self.cursor_x < self.cols
    }

    /// The control sequences that the terminal can carry out in this state. Those that edit the
    /// line at the cursor need the cursor on it, and those that bound the column need a column.
    pub open spec fn accepts_csi(
        self,
        params: Seq<Seq<u16>>,
        intermediates: Seq<u8>,
        ignore: bool,
        action: char,
    ) -> bool {
        let p = param_or(params, 0, 0) as int;
        if ignore || intermediates.len() > 0 {
            true
        } else if action == 'X' && self.erases_prompt() {
            self.printed.contains(self.cursor_y as usize) ==> self.cursor_on_line()
        } else if action == '@' || action == 'X' || action == 'P' {
            self.cursor_on_line()
        } else if action == 'J' || action == 'K' {
            p == 0 ==> self.cursor_on_line()
        } else if action == 'C' || action == 'H' || action == 'f' {
            self.cols > 0
        } else if action == 'm' {
            params_nonempty(params)
        } else {
            true
        }
    }

    /// The actions that the terminal can carry out in this state.
    pub open spec fn accepts(self, action: Action) -> bool {
        match action {
            Action::Print(c) => true,
            Action::Execute(byte) => byte == 8 && self.cursor_x == 0 && self.cursor_y > 0
                && self.grid[self.cursor_y].is_wrapped ==> self.cols > 0,
            Action::Csi { params, intermediates, ignore, action } => self.accepts_csi(
                params,
                intermediates,
                ignore,
                action,
            ),
        }
    }

    /// What one action makes of the terminal.
    pub open spec fn perform(self, action: Action) -> Screen {
        match action {
            Action::Print(c) => self.print(c),
            Action::Execute(byte) => self.execute(byte),
            Action::Csi { params, intermediates, ignore, action } => self.csi(
                params,
                intermediates,
                ignore,
                action,
            ),
        }
    }

    /// What a list of actions makes of the terminal, up to the first that it cannot carry out.
    pub open spec fn run(self, actions: Seq<Action>) -> Screen
        decreases actions.len(),
    {
        if actions.len() == 0 || !self.accepts(actions[0]) {
            self
        } else {
            self.perform(actions[0]).run(actions.drop_first())
        }
    }

    /// Whether the terminal can carry out every action of a list, one after the other.
    pub open spec fn accepts_all(self, actions: Seq<Action>) -> bool
        decreases actions.len(),
    {
        actions.len() == 0 || (self.accepts(actions[0]) && self.perform(actions[0]).accepts_all(
            actions.drop_first(),
        ))
    }
}

} // verus!
