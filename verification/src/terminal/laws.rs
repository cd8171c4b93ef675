//! What holds of the terminal as a whole.
use crate::terminal::cell::{blank_line, Cell, LineView, Selection};
use crate::terminal::reflow::{filled, filling_advances, rows_from};
use crate::terminal::screen::{
    at_least_one, default_pen, history_limit, param_or, renditions, Screen,
};
use crate::terminal::select::{first_corner, last_corner, row_text, text_before};
use crate::terminal::vt::Action;
use vstd::prelude::*;

verus! {

proof fn lemma_scroll_up_wf(s: Screen, top: int, bottom: int, n: int)
    requires
        s.wf(),
        0 <= top,
    ensures
        s.scrolled_up_by(top, bottom, n).wf(),
        s.scrolled_up_by(top, bottom, n).rows == s.rows,
        s.scrolled_up_by(top, bottom, n).region == s.region,
        s.history.len() <= history_limit() ==> s.scrolled_up_by(top, bottom, n).history.len()
            <= history_limit(),
    decreases n,
{
    if n > 0 {
        lemma_scroll_up_wf(s, top, bottom, n - 1);
    }
}

proof fn lemma_scroll_down_wf(s: Screen, top: int, bottom: int, n: int)
    requires
        s.wf(),
        0 <= top,
    ensures
        s.scrolled_down_by(top, bottom, n).wf(),
        s.scrolled_down_by(top, bottom, n).rows == s.rows,
        s.scrolled_down_by(top, bottom, n).history == s.history,
    decreases n,
{
    if n > 0 {
        lemma_scroll_down_wf(s, top, bottom, n - 1);
    }
}

/// Printing a character of any width keeps the terminal in shape: the grid has `rows` rows of
/// `cols` cells, and the cursor, the scrolling region and the view stay in range. A history that
/// is within its limit stays within it.
pub proof fn printing_keeps_the_terminal_in_shape(s: Screen, c: char, w: int)
    requires
        s.wf(),
        0 <= w <= 3,
    ensures
        s.put(c, w).wf(),
        s.put(c, w).rows == s.rows,
        s.put(c, w).cols == s.cols,
        s.history.len() <= history_limit() ==> s.put(c, w).history.len() <= history_limit(),
{
    if s.cursor_x + w > s.cols {
        assert(s.wrapped().wf());
    }
}

proof fn lemma_edit_wf(s: Screen, params: Seq<Seq<u16>>, action: char)
    requires
        s.wf(),
        action == '@' || action == 'X' || action == 'P' || action == 'J' || action == 'K',
    ensures
        s.csi_effect(params, action).wf(),
        s.csi_effect(params, action).rows == s.rows,
        s.csi_effect(params, action).cols == s.cols,
        s.csi_effect(params, action).history == s.history,
{
}

proof fn lemma_move_wf(s: Screen, params: Seq<Seq<u16>>, action: char)
    requires
        s.wf(),
        s.cols > 0,
        action == 'C' || action == 'H' || action == 'f',
    ensures
        s.csi_effect(params, action).wf(),
        s.csi_effect(params, action).rows == s.rows,
        s.csi_effect(params, action).cols == s.cols,
        s.csi_effect(params, action).history == s.history,
{
}

proof fn lemma_scroll_wf(s: Screen, params: Seq<Seq<u16>>, action: char)
    requires
        s.wf(),
        action == 'L' || action == 'M' || action == 'S' || action == 'T',
    ensures
        s.csi_effect(params, action).wf(),
        s.csi_effect(params, action).rows == s.rows,
        s.csi_effect(params, action).cols == s.cols,
        s.history.len() <= history_limit() ==> s.csi_effect(params, action).history.len()
            <= history_limit(),
{
    let n = at_least_one(param_or(params, 0, 0) as int);
    if action == 'L' {
        lemma_scroll_down_wf(s, s.cursor_y, s.region.1, n);
        lemma_scroll_size(s, s.cursor_y, s.region.1, n);
    } else if action == 'M' {
        lemma_scroll_up_wf(s, s.cursor_y, s.region.1, n);
        lemma_scroll_size(s, s.cursor_y, s.region.1, n);
    } else if action == 'S' {
        lemma_scroll_up_wf(s, s.region.0, s.region.1, n);
        lemma_scroll_size(s, s.region.0, s.region.1, n);
    } else {
        lemma_scroll_down_wf(s, s.region.0, s.region.1, n);
        lemma_scroll_size(s, s.region.0, s.region.1, n);
    }
}

proof fn lemma_other_wf(s: Screen, params: Seq<Seq<u16>>, action: char)
    requires
        s.wf(),
        action != '@' && action != 'X' && action != 'P' && action != 'J' && action != 'K',
        action != 'C' && action != 'H' && action != 'f',
        action != 'L' && action != 'M' && action != 'S' && action != 'T',
    ensures
        s.csi_effect(params, action).wf(),
        s.csi_effect(params, action).rows == s.rows,
        s.csi_effect(params, action).cols == s.cols,
        s.csi_effect(params, action).history == s.history,
{
}

/// Every control sequence that the terminal can carry out keeps it in shape, and a history that
/// is within its limit stays within it.
pub proof fn sequences_keep_the_terminal_in_shape(
    s: Screen,
    params: Seq<Seq<u16>>,
    intermediates: Seq<u8>,
    ignore: bool,
    action: char,
)
    requires
        s.wf(),
        s.accepts_csi(params, intermediates, ignore, action),
    ensures
        s.csi(params, intermediates, ignore, action).wf(),
        s.csi(params, intermediates, ignore, action).rows == s.rows,
        s.csi(params, intermediates, ignore, action).cols == s.cols,
        s.history.len() <= history_limit() ==> s.csi(
            params,
            intermediates,
            ignore,
            action,
        ).history.len() <= history_limit(),
{
    if ignore || intermediates.len() > 0 {
    } else if action == 'X' && s.erases_prompt() {
        assert(s.prompt_erased(param_or(params, 0, 0) as int).wf());
    } else {
        let t = s.csi_effect(params, action);
        if action == '@' || action == 'X' || action == 'P' || action == 'J' || action == 'K' {
            lemma_edit_wf(s, params, action);
        } else if action == 'C' || action == 'H' || action == 'f' {
            lemma_move_wf(s, params, action);
        } else if action == 'L' || action == 'M' || action == 'S' || action == 'T' {
            lemma_scroll_wf(s, params, action);
        } else {
            lemma_other_wf(s, params, action);
        }
        assert(t.ticked().wf());
        assert(t.ticked().history == t.history);
    }
}

/// The control codes keep the terminal in shape, and a history that is within its limit stays
/// within it.
pub proof fn control_codes_keep_the_terminal_in_shape(s: Screen, byte: u8)
    requires
        s.wf(),
        s.accepts(Action::Execute(byte)),
    ensures
        s.execute(byte).wf(),
        s.execute(byte).rows == s.rows,
        s.execute(byte).cols == s.cols,
        s.history.len() <= history_limit() ==> s.execute(byte).history.len() <= history_limit(),
{
    if byte == 9 {
        lemma_spaces_wf(s, 8 - s.cursor_x % 8);
    }
}

proof fn lemma_spaces_wf(s: Screen, n: int)
    requires
        s.wf(),
    ensures
        s.spaces(n).wf(),
        s.spaces(n).rows == s.rows,
        s.spaces(n).cols == s.cols,
        s.history.len() <= history_limit() ==> s.spaces(n).history.len() <= history_limit(),
    decreases n,
{
    if n > 0 {
        lemma_spaces_wf(s, n - 1);
        printing_keeps_the_terminal_in_shape(s.spaces(n - 1), ' ', 1);
    }
}

proof fn lemma_scroll_size(s: Screen, top: int, bottom: int, n: int)
    ensures
        s.scrolled_up_by(top, bottom, n).cols == s.cols,
        s.scrolled_down_by(top, bottom, n).cols == s.cols,
        s.scrolled_up_by(top, bottom, n).rows == s.rows,
        s.scrolled_down_by(top, bottom, n).rows == s.rows,
    decreases n,
{
    if n > 0 {
        lemma_scroll_size(s, top, bottom, n - 1);
    }
}

/// A character that is printed where its line has room is found at the cursor's old place, in
/// the pen's colours; the cursor moves past it, and no other row changes.
pub proof fn printed_text_reads_back(s: Screen, c: char, w: int)
    requires
        s.wf(),
        0 <= w <= 3,
        s.cursor_x + w <= s.cols,
        s.cursor_x < s.cols,
    ensures
        s.put(c, w).grid[s.cursor_y].cells[s.cursor_x] == s.pen.cell(c),
        s.put(c, w).cursor_x == s.cursor_x + w,
        s.put(c, w).cursor_y == s.cursor_y,
        forall|y: int|
            0 <= y < s.rows && y != s.cursor_y ==> #[trigger] s.put(c, w).grid[y] == s.grid[y],
        s.put(c, w).history == s.history,
{
}

/// A line feed on the last row of a terminal that scrolls as a whole moves the top line to the
/// end of the history and leaves an untouched last row.
pub proof fn line_feed_scrolls_into_history(s: Screen)
    requires
        s.wf(),
        s.region == (0int, s.rows - 1),
        s.cursor_y == s.rows - 1,
        s.history.len() < history_limit(),
    ensures
        s.execute(10).history == s.history.push(s.grid[0]),
        s.execute(10).grid == s.grid.drop_first().push(blank_line(s.cols)),
{
    assert(s.execute(10).grid =~= s.grid.drop_first().push(blank_line(s.cols)));
}

/// A reset of the rendition forgets everything that the pen held.
pub proof fn reset_forgets_the_pen(s: Screen, t: Screen)
    ensures
        renditions(s.pen, seq![seq![0u16]], 0) == renditions(t.pen, seq![seq![0u16]], 0),
        renditions(s.pen, seq![seq![0u16]], 0) == default_pen(),
{
    let params = seq![seq![0u16]];
    reveal_with_fuel(renditions, 2);
    assert(params[0][0] == 0);
}

/// Erasing the whole screen leaves no mark that could be told apart: every cell is the pen's
/// blank, no row continues another, and the cursor is at the top left.
pub proof fn erasing_all_leaves_blanks(s: Screen)
    requires
        s.wf(),
    ensures
        forall|y: int, x: int|
            0 <= y < s.rows && 0 <= x < s.cols ==> #[trigger] s.erased(2).grid[y].cells[x]
                == s.pen.blank(),
        forall|y: int| 0 <= y < s.rows ==> !(#[trigger] s.erased(2).grid[y]).is_wrapped,
        s.erased(2).cursor_x == 0,
        s.erased(2).cursor_y == 0,
        s.erased(2).erased(2) == s.erased(2),
{
    assert(s.erased(2).erased(2) =~~= s.erased(2));
}

/// A resize to the present size changes nothing.
pub proof fn resize_to_same_size_is_nothing(s: Screen)
    ensures
        s.resized(s.rows, s.cols) == s,
{
}

/// After a resize the terminal has the size that was asked for, and its cursor is on the screen.
pub proof fn resize_gives_the_size(s: Screen, rows: int, cols: int)
    requires
        s.wf(),
        rows > 0,
        cols > 0,
        s.rows != rows || s.cols != cols,
    ensures
        s.resized(rows, cols).rows == rows,
        s.resized(rows, cols).cols == cols,
        s.resized(rows, cols).grid.len() == rows,
        s.resized(rows, cols).cursor_x < cols,
        s.resized(rows, cols).cursor_y < rows,
        s.resized(rows, cols).offset <= s.resized(rows, cols).history.len(),
{
}

/// The cells of rows, one row after the other.
pub open spec fn flattened(rows: Seq<LineView>) -> Seq<Cell>
    decreases rows.len(),
{
    if rows.len() == 0 {
        Seq::empty()
    } else {
        rows[0].cells + flattened(rows.drop_first())
    }
}

pub proof fn lemma_fill_narrow(
    cells: Seq<Cell>,
    widths: Seq<int>,
    i: int,
    at: int,
    row: Seq<Cell>,
)
    requires
        widths.len() == cells.len(),
        forall|k: int| 0 <= k < widths.len() ==> #[trigger] widths[k] == 1,
        0 <= i <= cells.len(),
        0 <= at <= row.len(),
    ensures
        ({
            let (filled_row, next) = filled(cells, widths, i, at, row);
            let n = if row.len() - at < cells.len() - i {
                row.len() - at
            } else {
                cells.len() - i
            };
            &&& next == i + n
            &&& filled_row.len() == row.len()
            &&& forall|k: int| 0 <= k < at ==> #[trigger] filled_row[k] == row[k]
            &&& forall|k: int| at <= k < at + n ==> #[trigger] filled_row[k] == cells[i + k - at]
            &&& forall|k: int| at + n <= k < row.len() ==> #[trigger] filled_row[k] == row[k]
        }),
    decreases cells.len() - i,
{
    if i < cells.len() && at < row.len() {
        assert(widths[i] == 1);
        lemma_fill_narrow(cells, widths, i + 1, at + 1, row.update(at, cells[i]));
    }
}

/// Breaking a run of single-column text into rows keeps the text: the rows, read one after the
/// other, begin with the run, and only untouched cells follow.
pub proof fn reflow_keeps_narrow_text(cells: Seq<Cell>, widths: Seq<int>, i: int, cols: int)
    requires
        widths.len() == cells.len(),
        forall|k: int| 0 <= k < widths.len() ==> #[trigger] widths[k] == 1,
        0 <= i <= cells.len(),
        cols > 0,
    ensures
        ({
            let text = flattened(rows_from(cells, widths, i, cols));
            &&& text.len() >= cells.len() - i
            &&& text.take(cells.len() - i) == cells.skip(i)
            &&& forall|k: int|
                cells.len() - i <= k < text.len() ==> #[trigger] text[k] == blank_line(
                    cols,
                ).cells[0]
        }),
    decreases cells.len() - i,
{
    let rows = rows_from(cells, widths, i, cols);
    let text = flattened(rows);
    if i < cells.len() {
        let blank = blank_line(cols).cells;
        lemma_fill_narrow(cells, widths, i, 0, blank);
        let (row, next) = filled(cells, widths, i, 0, blank);
        reflow_keeps_narrow_text(cells, widths, next, cols);
        let rest = rows_from(cells, widths, next, cols);
        assert(rows.drop_first() =~= rest);
        assert(rows[0].cells == row);
        assert(text == row + flattened(rest));
        let tail = flattened(rest);
        assert(tail.take(cells.len() - next) == cells.skip(next));
        if next == cells.len() {
            assert(rest =~= Seq::empty());
        }
        assert forall|k: int| 0 <= k < cells.len() - i implies #[trigger] text[k] == cells[i
            + k] by {
            if k >= row.len() {
                assert(tail.take(cells.len() - next)[k - row.len()] == cells.skip(next)[k
                    - row.len()]);
            }
        }
        assert(text.take(cells.len() - i) =~= cells.skip(i));
    } else {
        assert(rows =~= Seq::empty());
        assert(text.take(0) =~= cells.skip(i));
    }
}

/// The columns of the cells from `i` on before cell `k`.
pub open spec fn columns_before(widths: Seq<int>, i: int, k: int) -> int
    decreases k - i,
{
    if k <= i {
        0
    } else {
        columns_before(widths, i, k - 1) + widths[k - 1]
    }
}

/// The place of cell `k` in the rows that the cells from `i` on take, the rows read one after the
/// other.
pub open spec fn place_in_rows(
    cells: Seq<Cell>,
    widths: Seq<int>,
    i: int,
    cols: int,
    k: int,
) -> int
    decreases cells.len() - i,
{
    let next = filled(cells, widths, i, 0, blank_line(cols).cells).1;
    if i < 0 || i >= cells.len() || next <= i || k < next {
        columns_before(widths, i, k)
    } else {
        proof {
            filling_advances(cells, widths, i, 0, blank_line(cols).cells);
        }
        cols + place_in_rows(cells, widths, next, cols, k)
    }
}

proof fn lemma_columns_from(widths: Seq<int>, i: int, k: int)
    requires
        0 <= i < k <= widths.len(),
    ensures
        columns_before(widths, i, k) == widths[i] + columns_before(widths, i + 1, k),
    decreases k - i,
{
    reveal_with_fuel(columns_before, 2);
    if i + 1 < k {
        lemma_columns_from(widths, i, k - 1);
    }
}

proof fn lemma_fill_in_order(
    cells: Seq<Cell>,
    widths: Seq<int>,
    i: int,
    at: int,
    row: Seq<Cell>,
)
    requires
        widths.len() == cells.len(),
        forall|k: int| 0 <= k < widths.len() ==> #[trigger] widths[k] >= 1,
        0 <= i <= cells.len(),
        0 <= at,
    ensures
        ({
            let (filled_row, next) = filled(cells, widths, i, at, row);
            &&& i <= next <= cells.len()
            &&& filled_row.len() == row.len()
            &&& forall|p: int| 0 <= p < at && p < row.len() ==> #[trigger] filled_row[p] == row[p]
            &&& forall|k: int|
                #![trigger columns_before(widths, i, k)]
                i <= k < next ==> {
                    &&& 0 <= columns_before(widths, i, k)
                    &&& at + columns_before(widths, i, k) < row.len()
                    &&& filled_row[at + columns_before(widths, i, k)] == cells[k]
                }
        }),
    decreases cells.len() - i,
{
    if i >= cells.len() || at >= row.len() || (widths[i] > 1 && at == row.len() - 1) {
    } else {
        let wide = widths[i];
        assert(wide >= 1);
        let updated = row.update(at, cells[i]);
        lemma_fill_in_order(cells, widths, i + 1, at + wide, updated);
        let (filled_row, next) = filled(cells, widths, i + 1, at + wide, updated);
        assert(filled_row[at] == updated[at]);
        assert forall|k: int|
            #![trigger columns_before(widths, i, k)]
            i <= k < next implies {
            &&& 0 <= columns_before(widths, i, k)
            &&& at + columns_before(widths, i, k) < row.len()
            &&& filled_row[at + columns_before(widths, i, k)] == cells[k]
        } by {
            if k > i {
                lemma_columns_from(widths, i, k);
                assert(0 <= columns_before(widths, i + 1, k));
            }
        }
    }
}

/// Breaking a run of text into rows keeps every character in its order: each cell is found at its
/// place, and the places go forward. Characters that take no column are left out: the next one is
/// written over them.
pub proof fn reflow_keeps_the_order(
    cells: Seq<Cell>,
    widths: Seq<int>,
    i: int,
    cols: int,
    k: int,
)
    requires
        widths.len() == cells.len(),
        forall|j: int| 0 <= j < widths.len() ==> #[trigger] widths[j] >= 1,
        cols > 1,
        0 <= i <= k < cells.len(),
    ensures
        ({
            let text = flattened(rows_from(cells, widths, i, cols));
            let place = place_in_rows(cells, widths, i, cols, k);
            &&& 0 <= place < text.len()
            &&& text[place] == cells[k]
            &&& k + 1 < cells.len() ==> place < place_in_rows(cells, widths, i, cols, k + 1)
        }),
    decreases cells.len() - i,
{
    let blank = blank_line(cols).cells;
    let (row, next) = filled(cells, widths, i, 0, blank);
    lemma_fill_in_order(cells, widths, i, 0, blank);
    lemma_first_goes_in(cells, widths, i, cols);
    let rows = rows_from(cells, widths, i, cols);
    let rest = rows_from(cells, widths, next, cols);
    assert(rows.drop_first() =~= rest);
    assert(rows[0].cells == row);
    let text = flattened(rows);
    assert(text == row + flattened(rest));
    if k < next {
        assert(0 <= columns_before(widths, i, k) < cols);
        if k + 1 < cells.len() {
            if k + 1 < next {
                assert(columns_before(widths, i, k + 1) == columns_before(widths, i, k)
                    + widths[k]);
            } else {
                reflow_keeps_the_order(cells, widths, next, cols, k + 1);
            }
        }
    } else {
        reflow_keeps_the_order(cells, widths, next, cols, k);
    }
}

proof fn lemma_first_goes_in(cells: Seq<Cell>, widths: Seq<int>, i: int, cols: int)
    requires
        widths.len() == cells.len(),
        cols > 1,
        0 <= i < cells.len(),
    ensures
        filled(cells, widths, i, 0, blank_line(cols).cells).1 > i,
{
    let blank = blank_line(cols).cells;
    filling_advances(cells, widths, i + 1, widths[i], blank.update(0, cells[i]));
}

/// The selected text does not depend on the order of the corners.
pub proof fn selection_order_does_not_matter(s: Screen, a: (usize, usize), b: (usize, usize))
    ensures
        (Screen { selection: Some(Selection { start: a, end: b }), ..s }).selected_text()
            == (Screen { selection: Some(Selection { start: b, end: a }), ..s }).selected_text(),
{
    let lines = s.history + s.grid;
    lemma_text_order(lines, a, b, lines.len() as int);
}

proof fn lemma_text_order(lines: Seq<LineView>, a: (usize, usize), b: (usize, usize), y: int)
    ensures
        text_before(lines, Selection { start: a, end: b }, y) == text_before(
            lines,
            Selection { start: b, end: a },
            y,
        ),
    decreases y,
{
    let s = Selection { start: a, end: b };
    let t = Selection { start: b, end: a };
    assert(first_corner(s) == first_corner(t) && last_corner(s) == last_corner(t));
    if y > first_corner(s).1 {
        lemma_text_order(lines, a, b, y - 1);
        assert(row_text(lines[y - 1], s, y - 1) == row_text(lines[y - 1], t, y - 1));
    }
}

} // verus!
