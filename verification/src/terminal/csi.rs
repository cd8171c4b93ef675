//! Control sequences: what the terminal does with each.
use crate::terminal::cell::{ansi_color, ansi_color_bright, color_from_256, Cell, Color, LineView};
use crate::terminal::emulator::{without_orphan, TerminalEmulator};
use crate::terminal::screen::{
    ascii_bytes, cursor_report, deleted_cells, device_attributes, erased_line, extended_color,
    inserted_cells, param_or, rendition, renditions, wrap_run_end, Screen,
};
use crate::terminal::vt::{params_nonempty, params_view};
use crate::text::push_decimal;
use vstd::prelude::*;

verus! {

broadcast use vstd::std_specs::hash::group_hash_axioms;

/// Pushes `n` blanks into a line's cells at `x`.
fn insert_cells(cells: &mut Vec<Cell>, x: usize, n: usize, blank: Cell)
    requires
        old(cells)@.len() <= isize::MAX,
        x == 0 || x < old(cells)@.len(),
        0 < n <= 65535,
        blank.ch != '\0',
    ensures
        final(cells)@ == inserted_cells(old(cells)@, x as int, n as int, blank),
{
    let len: usize = cells.len();
    let ghost before = cells@;
    if x > 0 && cells[x].ch == '\0' {
        let left = cells[x - 1];
        cells.set(x - 1, Cell { ch: ' ', ..left });
        let here = cells[x];
        cells.set(x, Cell { ch: ' ', ..here });
    }
    let ghost start = cells@;
    let mut i: usize = len;
    while i > x + n
        invariant
            i <= len || i <= x + n,
            i >= x,
            len == cells@.len() == start.len(),
            len <= isize::MAX,
            x == 0 || x < len,
            0 < n <= 65535,
            forall|k: int|
                0 <= k < len ==> #[trigger] cells@[k] == (if k >= i && k >= x + n {
                    start[k - n]
                } else {
                    start[k]
                }),
        decreases i,
    {
        i = i - 1;
        let moved = cells[i - n];
        cells.set(i, moved);
    }
    let ghost shifted = cells@;
    let mut j: usize = x;
    while j < len && j < x + n
        invariant
            x <= j,
            j <= len || j == x,
            j <= x + n,
            len == cells@.len() == shifted.len(),
            len <= isize::MAX,
            x == 0 || x < len,
            0 < n <= 65535,
            forall|k: int|
                0 <= k < len ==> #[trigger] cells@[k] == (if x <= k < j {
                    blank
                } else {
                    shifted[k]
                }),
        decreases len - j,
    {
        cells.set(j, blank);
        j = j + 1;
    }
    if x + n < len {
        let edge = without_orphan(cells[x + n]);
        cells.set(x + n, edge);
    }
    assert(cells@ =~= inserted_cells(before, x as int, n as int, blank));
}

/// Takes `n` cells out of a line at `x`.
fn delete_cells(cells: &mut Vec<Cell>, x: usize, n: usize, blank: Cell)
    requires
        old(cells)@.len() <= isize::MAX,
        x == 0 || x < old(cells)@.len(),
        0 < n <= 65535,
        blank.ch != '\0',
    ensures
        final(cells)@ == deleted_cells(old(cells)@, x as int, n as int, blank),
{
    let len: usize = cells.len();
    let ghost before = cells@;
    if x > 0 && cells[x].ch == '\0' {
        let left = cells[x - 1];
        cells.set(x - 1, Cell { ch: ' ', ..left });
    }
    let ghost start = cells@;
    let mut i: usize = x;
    while i < len
        invariant
            x <= i,
            i <= len || i == x,
            len == cells@.len() == start.len(),
            len <= isize::MAX,
            0 < n <= 65535,
            forall|k: int|
                0 <= k < len ==> #[trigger] cells@[k] == (if x <= k < i {
                    if k + n < len {
                        start[k + n]
                    } else {
                        blank
                    }
                } else {
                    start[k]
                }),
        decreases len - i,
    {
        if i + n < len {
            let moved = cells[i + n];
            cells.set(i, moved);
        } else {
            cells.set(i, blank);
        }
        i = i + 1;
    }
    if x < len {
        let edge = without_orphan(cells[x]);
        cells.set(x, edge);
    }
    assert(cells@ =~= deleted_cells(before, x as int, n as int, blank));
}

/// The first value of parameter `i`, or `default` where there is none.
pub(crate) fn first_value(params: &Vec<Vec<u16>>, i: usize, default: u16) -> (v: u16)
    ensures
        v == param_or(params_view(params@), i as int, default),
{
    if i < params.len() && params[i].len() > 0 {
        params[i][0]
    } else {
        default
    }
}

/// Reads an extended colour from the parameters from `i` on, and says where to go on.
pub fn parse_extended_color(params: &Vec<Vec<u16>>, i: usize) -> (r: (Option<Color>, usize))
    requires
        i <= params@.len(),
    ensures
        r.0 == extended_color(params_view(params@), i as int).0,
        r.1 == extended_color(params_view(params@), i as int).1,
        i <= r.1 <= params@.len(),
{
    let ghost view = params_view(params@);
    if i >= params.len() {
        return (None, i);
    }
    if params[i].len() == 0 {
        return (None, i + 1);
    }
    let kind: u16 = params[i][0];
    assert(kind == view[i as int][0]);
    if kind == 5 {
        if i + 1 >= params.len() {
            return (None, i + 1);
        }
        if params[i + 1].len() == 0 {
            return (None, i + 2);
        }
        let index: u8 = #[verifier::truncate]
        (params[i + 1][0] as u8);
        assert(view[i + 1][0] == params@[i + 1]@[0]);
        (Some(color_from_256(index)), i + 2)
    } else if kind == 2 {
        if i + 1 >= params.len() {
            return (None, i + 1);
        }
        if params[i + 1].len() == 0 || i + 2 >= params.len() {
            return (None, i + 2);
        }
        if params[i + 2].len() == 0 || i + 3 >= params.len() {
            return (None, i + 3);
        }
        if params[i + 3].len() == 0 {
            return (None, i + 4);
        }
        let r: u8 = #[verifier::truncate]
        (params[i + 1][0] as u8);
        let g: u8 = #[verifier::truncate]
        (params[i + 2][0] as u8);
        let b: u8 = #[verifier::truncate]
        (params[i + 3][0] as u8);
        (Some(Color::from_rgb8(r, g, b)), i + 4)
    } else {
        (None, i + 1)
    }
}

impl TerminalEmulator {
    /// Applies one plain rendition parameter.
    fn apply_rendition(&mut self, p: u16)
        ensures
            final(self)@ == (Screen { pen: rendition(old(self)@.pen, p as int), ..old(self)@ }),
    {
        if p == 0 {
            self.current_fg = Color::white();
            self.current_bg = Color::black();
            self.current_bold = false;
            self.current_italic = false;
            self.current_underline = false;
        } else if p == 1 {
            self.current_bold = true;
        } else if p == 3 {
            self.current_italic = true;
        } else if p == 4 {
            self.current_underline = true;
        } else if p == 22 {
            self.current_bold = false;
        } else if p == 23 {
            self.current_italic = false;
        } else if p == 24 {
            self.current_underline = false;
        } else if 30 <= p && p <= 37 {
            self.current_fg = ansi_color((p - 30) as u8);
        } else if p == 39 {
            self.current_fg = Color::white();
        } else if 40 <= p && p <= 47 {
            self.current_bg = ansi_color((p - 40) as u8);
        } else if p == 49 {
            self.current_bg = Color::black();
        } else if 90 <= p && p <= 97 {
            self.current_fg = ansi_color_bright((p - 90) as u8);
        } else if 100 <= p && p <= 107 {
            self.current_bg = ansi_color_bright((p - 100) as u8);
        }
        assert(self@ =~= (Screen { pen: rendition(old(self)@.pen, p as int), ..old(self)@ }));
    }

    /// Applies the parameters of a rendition sequence.
    fn select_renditions(&mut self, params: &Vec<Vec<u16>>)
        requires
            params_nonempty(params_view(params@)),
        ensures
            final(self)@ == (Screen {
                pen: renditions(old(self)@.pen, params_view(params@), 0),
                ..old(self)@
            }),
    {
        let ghost before = self@;
        let ghost view = params_view(params@);
        let mut i: usize = 0;
        while i < params.len()
            invariant
                i <= params@.len(),
                    view == params_view(params@),
                params_nonempty(view),
                self@ == (Screen { pen: self@.pen, ..before }),
                renditions(self@.pen, view, i as int) == renditions(before.pen, view, 0),
            decreases params@.len() - i,
        {
            assert(view[i as int].len() > 0);
            let p: u16 = params[i][0];
            assert(p == view[i as int][0]);
            if p == 38 || p == 48 {
                let (color, next) = parse_extended_color(params, i + 1);
                if let Some(c) = color {
                    if p == 38 {
                        self.current_fg = c;
                    } else {
                        self.current_bg = c;
                    }
                }
                i = next;
            } else {
                self.apply_rendition(p);
                i = i + 1;
            }
        }
    }

    /// Edits the cells of the cursor's row: inserts blanks or deletes cells at the cursor.
    fn edit_row(&mut self, insert: bool, n: usize)
        requires
            old(self)@.wf(),
            old(self)@.cursor_on_line(),
            0 < n <= 65535,
        ensures
            final(self)@ == old(self)@.with_line(
                old(self)@.cursor_y,
                LineView {
                    cells: if insert {
                        inserted_cells(
                            old(self)@.grid[old(self)@.cursor_y].cells,
                            old(self)@.cursor_x,
                            n as int,
                            old(self)@.pen.blank(),
                        )
                    } else {
                        deleted_cells(
                            old(self)@.grid[old(self)@.cursor_y].cells,
                            old(self)@.cursor_x,
                            n as int,
                            old(self)@.pen.blank(),
                        )
                    },
                    ..old(self)@.grid[old(self)@.cursor_y]
                },
            ),
            final(self)@.wf(),
    {
        let blank = self.blank_cell();
        let x: usize = self.cursor_x;
        let y: usize = self.cursor_y;
        let mut line = self.take_line(y);
        assert(line@ == old(self)@.grid[y as int]);
        if insert {
            insert_cells(&mut line.cells, x, n, blank);
        } else {
            delete_cells(&mut line.cells, x, n, blank);
        }
        let ghost edited = line@;
        self.put_line(y, line);
        assert(self@.grid =~= old(self)@.grid.update(y as int, edited));
    }

    /// Places the cursor at a 1-based position.
    fn move_to(&mut self, y: usize, x: usize)
        requires
            old(self)@.wf(),
            old(self)@.cols > 0,
        ensures
            final(self)@ == old(self)@.moved_to(y as int, x as int),
            final(self)@.wf(),
    {
        let ghost before = self@;
        let old_y: usize = self.cursor_y;
        let target: usize = y.saturating_sub(1);
        let new_y: usize = if self.rows - 1 < target {
            self.rows - 1
        } else {
            target
        };
        let column: usize = x.saturating_sub(1);
        let new_x: usize = if self.cols - 1 < column {
            self.cols - 1
        } else {
            column
        };
        if new_y < old_y {
            self.history_prompt_y = Some(new_y);
            self.history_clear_timeout = 30;
            self.history_printed_lines.clear();
            let ghost armed = self@;
            let starts_run: bool = self.grid[new_y].is_wrapped;
            assert(starts_run == before.grid[new_y as int].is_wrapped);
            if starts_run {
                let mut clear_y: usize = new_y + 1;
                let mut prev_was_wrapped: bool = true;
                while clear_y < self.rows && prev_was_wrapped
                    invariant
                        new_y < clear_y <= self.rows,
                        before.wf(),
                        armed == (Screen {
                            prompt_y: Some(new_y),
                            timeout: 30,
                            printed: Set::empty(),
                            ..before
                        }),
                        self@ == (Screen { grid: self@.grid, ..armed }),
                        self@.wf(),
                        prev_was_wrapped ==> wrap_run_end(before.grid, clear_y as int)
                            == wrap_run_end(before.grid, new_y + 1),
                        !prev_was_wrapped ==> clear_y == wrap_run_end(before.grid, new_y + 1),
                        forall|k: int|
                            0 <= k < before.rows ==> #[trigger] self@.grid[k] == (if new_y < k
                                < clear_y {
                                erased_line(before.grid[k], before.cursor_x, before.pen.blank(), 2)
                            } else {
                                before.grid[k]
                            }),
                    decreases self.rows - clear_y,
                {
                    prev_was_wrapped = self.grid[clear_y].is_wrapped;
                    assert(self@.grid[clear_y as int] == before.grid[clear_y as int]);
                    assert(prev_was_wrapped == before.grid[clear_y as int].is_wrapped);
                    self.clear_line(clear_y, 2);
                    clear_y = clear_y + 1;
                }
                assert(clear_y == wrap_run_end(before.grid, new_y + 1));
            }
        }
        self.cursor_y = new_y;
        self.cursor_x = new_x;
        self.mark_wrapped(new_y, false);
        assert(self@.grid =~= before.moved_to(y as int, x as int).grid);
    }

    /// Moves the cursor right by `n`.
    fn move_forward(&mut self, n: usize)
        requires
            old(self)@.wf(),
            old(self)@.cols > 0,
            0 < n <= 65535,
        ensures
            final(self)@ == old(self)@.forward(n as int),
            final(self)@.wf(),
    {
        if let Some((c, prev_n, target_is_empty)) = self.last_csi {
            if c == 'X' && prev_n == n && target_is_empty {
                let y: usize = self.cursor_y;
                self.clear_line(y, 2);
            }
        }
        self.cursor_x = if self.cols - 1 < self.cursor_x + n {
            self.cols - 1
        } else {
            self.cursor_x + n
        };
    }

    /// Scrolls rows `top` to `bottom` up (or down) `n` times.
    fn scroll_by(&mut self, up: bool, top: usize, bottom: usize, n: usize)
        requires
            old(self)@.wf(),
        ensures
            up ==> final(self)@ == old(self)@.scrolled_up_by(top as int, bottom as int, n as int),
            !up ==> final(self)@ == old(self)@.scrolled_down_by(
                top as int,
                bottom as int,
                n as int,
            ),
            final(self)@.wf(),
    {
        let ghost before = self@;
        let mut i: usize = 0;
        while i < n
            invariant
                i <= n,
                self@.wf(),
                up ==> self@ == before.scrolled_up_by(top as int, bottom as int, i as int),
                !up ==> self@ == before.scrolled_down_by(top as int, bottom as int, i as int),
            decreases n - i,
        {
            if up {
                self.scroll_up_in_region(top, bottom);
            } else {
                self.scroll_down_in_region(top, bottom);
            }
            i = i + 1;
        }
    }

    /// Sets the scrolling region from 1-based rows.
    fn set_region(&mut self, first: usize, last: usize)
        requires
            old(self)@.wf(),
        ensures
            final(self)@ == old(self)@.with_region(first as int, last as int),
            final(self)@.wf(),
    {
        let top: usize = first.saturating_sub(1);
        let wanted: usize = last.saturating_sub(1);
        let bottom: usize = if wanted < self.rows - 1 {
            wanted
        } else {
            self.rows - 1
        };
        if top < bottom {
            self.scrolling_region = (top, bottom);
        }
    }

    /// Queues a reply.
    fn respond(&mut self, reply: Vec<u8>)
        ensures
            final(self)@ == (Screen {
                responses: old(self)@.responses.push(reply@),
                ..old(self)@
            }),
    {
        self.pending_responses.push(reply);
        assert(self@.responses =~= old(self)@.responses.push(reply@));
    }

    /// The reply to a request for the cursor position.
    fn cursor_reply(&self) -> (reply: Vec<u8>)
        requires
            self@.wf(),
        ensures
            reply@ == ascii_bytes(cursor_report(self@.cursor_x, self@.cursor_y)),
    {
        let mut text = String::new();
        text.push('\u{1b}');
        text.push('[');
        push_decimal(&mut text, self.cursor_y as u64 + 1);
        text.push(';');
        push_decimal(&mut text, self.cursor_x as u64 + 1);
        text.push('R');
        assert(text@ =~= cursor_report(self@.cursor_x, self@.cursor_y));
        let len: usize = text.as_str().unicode_len();
        let mut reply: Vec<u8> = Vec::new();
        let mut i: usize = 0;
        while i < len
            invariant
                i <= len,
                len == text@.len(),
                reply@.len() == i,
                forall|k: int| 0 <= k < i ==> #[trigger] reply@[k] == text@[k] as u8,
            decreases len - i,
        {
            let c: char = text.as_str().get_char(i);
            reply.push(c as u8);
            i = i + 1;
        }
        assert(reply@ =~= ascii_bytes(text@));
        reply
    }

    /// Carries out a control sequence.
    pub fn csi_dispatch(
        &mut self,
        params: &Vec<Vec<u16>>,
        intermediates: &Vec<u8>,
        ignore: bool,
        action: char,
    )
        requires
            old(self)@.wf(),
            old(self)@.accepts_csi(params_view(params@), intermediates@, ignore, action),
        ensures
            final(self)@ == old(self)@.csi(
                params_view(params@),
                intermediates@,
                ignore,
                action,
            ),
            final(self)@.wf(),
    {
        if ignore || intermediates.len() > 0 {
            return;
        }
        let ghost before = self@;
        let ghost view = params_view(params@);
        let param1: usize = first_value(params, 0, 0) as usize;
        let n: usize = if param1 < 1 {
            1
        } else {
            param1
        };
        let x: usize = self.cursor_x;
        let y: usize = self.cursor_y;
        if action == 'X' {
            if let Some(prompt_y) = self.history_prompt_y {
                if y >= prompt_y {
                    if self.history_printed_lines.contains(&y) {
                        self.clear_line(y, 0);
                    } else {
                        self.clear_line(y, 2);
                    }
                    self.last_csi = Some(('X', param1, true));
                    return;
                }
            }
        }
        if action == '@' {
            self.edit_row(true, n);
        } else if action == 'X' || action == 'P' {
            self.edit_row(false, n);
        } else if action == 'A' {
            self.cursor_y = y.saturating_sub(n);
        } else if action == 'B' {
            self.cursor_y = if self.rows - 1 < y + n {
                self.rows - 1
            } else {
                y + n
            };
        } else if action == 'C' {
            self.move_forward(n);
        } else if action == 'D' {
            self.cursor_x = x.saturating_sub(n);
        } else if action == 'H' || action == 'f' {
            let column: usize = first_value(params, 1, 1) as usize;
            self.move_to(param1, column);
        } else if action == 'm' {
            self.select_renditions(params);
        } else if action == 'J' {
            self.clear_screen(param1);
        } else if action == 'K' {
            self.clear_line(y, param1);
        } else if action == 'L' {
            let bottom: usize = self.scrolling_region.1;
            self.scroll_by(false, y, bottom, n);
        } else if action == 'M' {
            let bottom: usize = self.scrolling_region.1;
            self.scroll_by(true, y, bottom, n);
        } else if action == 'S' {
            let (top, bottom) = self.scrolling_region;
            self.scroll_by(true, top, bottom, n);
        } else if action == 'T' {
            let (top, bottom) = self.scrolling_region;
            self.scroll_by(false, top, bottom, n);
        } else if action == 'r' {
            let height: u16 = #[verifier::truncate]
            (self.rows as u16);
            let last: usize = first_value(params, 1, height) as usize;
            self.set_region(param1, last);
        } else if action == 'n' {
            if param1 == 6 {
                let reply = self.cursor_reply();
                self.respond(reply);
            }
        } else if action == 'c' {
            let reply: Vec<u8> = vec![0x1b, 0x5b, 0x3f, 0x31, 0x3b, 0x32, 0x63];
            assert(reply@ =~= device_attributes());
            self.respond(reply);
        }
        assert(self@ == before.csi_effect(view, action));
        if self.history_clear_timeout > 0 {
            self.history_clear_timeout = self.history_clear_timeout - 1;
            if self.history_clear_timeout == 0 {
                self.history_prompt_y = None;
            }
        }
    }
}

} // verus!
