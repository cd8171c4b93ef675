//! What becomes of the text when the terminal gets another size.
use crate::terminal::cell::{blank_line, Cell, LineView};
use crate::terminal::edit_laws::is_untouched_line;
use crate::terminal::laws::{flattened, lemma_fill_narrow, reflow_keeps_narrow_text};
use crate::terminal::reflow::{
    all_rows, filled, joined, rows_from, run_rows, text_runs, trimmed, widths_of,
};
use crate::terminal::screen::Screen;
use crate::terminal::width::unicode_width;
use vstd::prelude::*;

verus! {

/// The rows that lines are broken into: those of a screen with a single row, and of its history.
pub open spec fn broken(s: Screen, lines: Seq<LineView>, cols: int) -> Seq<LineView> {
    let t = (Screen { history: lines, grid: Seq::empty(), rows: 0, cols: 0, ..s }).resized(1, cols);
    t.history + t.grid
}

/// The character of a cell, and a space beyond the last one.
pub open spec fn character(cells: Seq<Cell>, i: int) -> char {
    if i < cells.len() {
        cells[i].ch
    } else {
        ' '
    }
}

/// Whether all lines have cells, and each holds a character of one column.
pub open spec fn is_plain_text(lines: Seq<LineView>) -> bool {
    &&& forall|y: int| 0 <= y < lines.len() ==> (#[trigger] lines[y]).cells.len() > 0
    &&& forall|y: int, x: int|
        0 <= y < lines.len() && 0 <= x < lines[y].cells.len() ==> is_plain(
            #[trigger] lines[y].cells[x],
        )
}

/// Whether a cell holds a character of one column.
pub open spec fn is_plain(cell: Cell) -> bool {
    cell.ch != '\0' && unicode_width(cell.ch) == Some(1usize)
}

proof fn lemma_run_has_cells(lines: Seq<LineView>)
    requires
        lines.len() > 0,
        forall|y: int| 0 <= y < lines.len() ==> (#[trigger] lines[y]).cells.len() > 0,
    ensures
        joined(lines).1.len() > 0,
{
    assert(lines.last() == lines[lines.len() - 1]);
}

proof fn lemma_some_rows(lines: Seq<LineView>, cols: int)
    requires
        lines.len() > 0,
        forall|y: int| 0 <= y < lines.len() ==> (#[trigger] lines[y]).cells.len() > 0,
        is_plain_text(lines) || cols > 1,
        cols > 0,
    ensures
        all_rows(text_runs(lines), cols).len() > 0,
{
    lemma_run_has_cells(lines);
    let runs = text_runs(lines);
    let run = runs.last();
    assert(all_rows(runs, cols) == all_rows(runs.drop_last(), cols) + run_rows(run, cols));
    let cells = trimmed(run);
    if cells.len() > 0 {
        let widths = widths_of(cells);
        let blank = blank_line(cols).cells;
        if cols == 1 {
            lemma_joined_plain(lines);
            lemma_trimmed(run);
            assert(widths[0] <= 1) by {
                assert(cells[0] == run[0]);
                assert(is_plain(joined(lines).1[0]));
            }
        }
        crate::terminal::reflow::filling_advances(
            cells,
            widths,
            1,
            widths[0],
            blank.update(0, cells[0]),
        );
        assert(filled(cells, widths, 0, 0, blank).1 >= 1);
        assert(rows_from(cells, widths, 0, cols).len() > 0);
    }
}

proof fn lemma_joined_plain(lines: Seq<LineView>)
    requires
        is_plain_text(lines),
    ensures
        forall|i: int| 0 <= i < joined(lines).1.len() ==> is_plain(#[trigger] joined(lines).1[i]),
    decreases lines.len(),
{
    if lines.len() > 0 {
        let init = lines.drop_last();
        assert forall|y: int| 0 <= y < init.len() implies (#[trigger] init[y]).cells.len() > 0 by {
            assert(init[y] == lines[y]);
        }
        assert forall|y: int, x: int|
            0 <= y < init.len() && 0 <= x < init[y].cells.len() implies is_plain(
            #[trigger] init[y].cells[x],
        ) by {
            assert(init[y] == lines[y]);
            assert(is_plain(lines[y].cells[x]));
        }
        lemma_joined_plain(init);
        let last = lines.last().cells;
        assert forall|x: int| 0 <= x < last.len() implies is_plain(#[trigger] last[x]) by {
            assert(is_plain(lines[lines.len() - 1].cells[x]));
        }
        let run = joined(init).1;
        assert forall|i: int| 0 <= i < joined(lines).1.len() implies is_plain(
            #[trigger] joined(lines).1[i],
        ) by {
            if lines.last().is_wrapped || run.len() == 0 {
                if i < run.len() {
                    assert(is_plain(run[i]));
                } else {
                    assert(is_plain(last[i - run.len()]));
                }
            } else {
                assert(is_plain(last[i]));
            }
        }
    }
}

proof fn lemma_trimmed(cells: Seq<Cell>)
    ensures
        trimmed(cells).len() <= cells.len(),
        forall|i: int| 0 <= i < trimmed(cells).len() ==> #[trigger] trimmed(cells)[i] == cells[i],
        forall|i: int| trimmed(cells).len() <= i < cells.len() ==> (#[trigger] cells[i]).ch == ' ',
        trimmed(cells).len() > 0 ==> trimmed(cells).last().ch != ' ',
    decreases cells.len(),
{
    if cells.len() > 0 && cells.last().ch == ' ' {
        lemma_trimmed(cells.drop_last());
        assert forall|i: int| trimmed(cells).len() <= i < cells.len() implies (
        #[trigger] cells[i]).ch == ' ' by {
            if i < cells.len() - 1 {
                assert(cells.drop_last()[i] == cells[i]);
            }
        }
    }
}

/// A resize shows the last rows that the text is broken into, followed by untouched ones where the
/// screen has room left. The rows before them make up the history. The region becomes the whole
/// screen, the cursor and the view stay in range, and the pen and the selection stay.
#[verifier::rlimit(40)]
pub proof fn resizing_shows_the_end_of_the_text(s: Screen, rows: int, cols: int, y: int)
    requires
        s.wf(),
        rows > 0,
        cols > 1,
        s.cols > 0,
        rows != s.rows || cols != s.cols,
        forall|k: int| 0 <= k < s.history.len() ==> (#[trigger] s.history[k]).cells.len() > 0,
        y >= 0,
    ensures
        ({
            let t = s.resized(rows, cols);
            let text = broken(s, s.history + s.grid, cols);
            let n = text.len();
            &&& t.grid.len() == rows
            &&& n <= rows ==> t.history.len() == 0
            &&& n > rows ==> t.history.len() == n - rows
            &&& y < n ==> (t.history + t.grid)[y] == text[y]
            &&& n <= y < rows ==> is_untouched_line(t.grid[y], cols)
            &&& t.region == (0int, rows - 1)
            &&& s.cursor_x < cols ==> t.cursor_x == s.cursor_x
            &&& s.cursor_x >= cols ==> t.cursor_x == cols - 1
            &&& s.cursor_y < rows ==> t.cursor_y == s.cursor_y
            &&& s.cursor_y >= rows ==> t.cursor_y == rows - 1
            &&& s.offset <= t.history.len() ==> t.offset == s.offset
            &&& s.offset > t.history.len() ==> t.offset == t.history.len()
            &&& t.pen == s.pen && t.selection == s.selection && t.responses == s.responses
        }),
{
    let lines = s.history + s.grid;
    let all = all_rows(text_runs(lines), cols);
    assert forall|k: int| 0 <= k < lines.len() implies (#[trigger] lines[k]).cells.len() > 0 by {
        if k < s.history.len() {
            assert(lines[k] == s.history[k]);
        } else {
            assert(lines[k] == s.grid[k - s.history.len()]);
        }
    }
    lemma_some_rows(lines, cols);
    lemma_broken(s, lines, cols);
    let t = s.resized(rows, cols);
    if y < all.len() {
        assert((t.history + t.grid)[y] == all[y]);
    }
}

proof fn lemma_broken(s: Screen, lines: Seq<LineView>, cols: int)
    requires
        all_rows(text_runs(lines), cols).len() > 0,
    ensures
        broken(s, lines, cols) == all_rows(text_runs(lines), cols),
{
    let none = Seq::<LineView>::empty();
    assert(lines + none =~= lines);
    assert(broken(s, lines, cols) =~= all_rows(text_runs(lines), cols));
}

proof fn lemma_joined_apart(a: Seq<LineView>, b: Seq<LineView>)
    requires
        b.len() > 0,
        !b[0].is_wrapped,
        joined(a).1.len() > 0,
    ensures
        joined(a + b).0 == joined(a).0.push(joined(a).1) + joined(b).0,
        joined(a + b).1 == joined(b).1,
    decreases b.len(),
{
    assert((a + b).drop_last() =~= a + b.drop_last());
    assert((a + b).last() == b.last());
    if b.len() == 1 {
        assert(a + b.drop_last() =~= a);
        assert(joined(b.drop_last()).1 =~= Seq::<Cell>::empty());
        assert(joined(b).1 =~= b[0].cells);
        assert(joined(b).0 =~= Seq::<Seq<Cell>>::empty());
        assert(joined(a).0.push(joined(a).1) + joined(b).0 =~= joined(a).0.push(joined(a).1));
    } else {
        lemma_joined_apart(a, b.drop_last());
        assert(joined(a + b).0 =~= joined(a).0.push(joined(a).1) + joined(b).0);
    }
}

proof fn lemma_rows_add(a: Seq<Seq<Cell>>, b: Seq<Seq<Cell>>, cols: int)
    ensures
        all_rows(a + b, cols) == all_rows(a, cols) + all_rows(b, cols),
    decreases b.len(),
{
    if b.len() == 0 {
        assert(a + b =~= a);
        assert(all_rows(a, cols) + all_rows(b, cols) =~= all_rows(a, cols));
    } else {
        lemma_rows_add(a, b.drop_last(), cols);
        assert((a + b).drop_last() =~= a + b.drop_last());
        assert((a + b).last() == b.last());
        assert(all_rows(a + b, cols) =~= all_rows(a, cols) + all_rows(b, cols));
    }
}

/// A line that continues nothing starts a new row: what comes before it and what comes from it on
/// are broken into rows apart.
pub proof fn new_lines_start_new_rows(
    s: Screen,
    before: Seq<LineView>,
    after: Seq<LineView>,
    cols: int,
)
    requires
        cols > 1,
        before.len() > 0,
        after.len() > 0,
        !after[0].is_wrapped,
        forall|y: int| 0 <= y < before.len() ==> (#[trigger] before[y]).cells.len() > 0,
        forall|y: int| 0 <= y < after.len() ==> (#[trigger] after[y]).cells.len() > 0,
    ensures
        broken(s, before + after, cols) == broken(s, before, cols) + broken(s, after, cols),
{
    let both = before + after;
    lemma_run_has_cells(before);
    lemma_run_has_cells(after);
    lemma_joined_apart(before, after);
    assert(text_runs(both) =~= text_runs(before) + text_runs(after));
    lemma_rows_add(text_runs(before), text_runs(after), cols);
    lemma_some_rows(before, cols);
    lemma_some_rows(after, cols);
    lemma_broken(s, before, cols);
    lemma_broken(s, after, cols);
    lemma_broken(s, both, cols);
}

proof fn lemma_flattened_last(rows: Seq<LineView>)
    requires
        rows.len() > 0,
    ensures
        flattened(rows) == flattened(rows.drop_last()) + rows.last().cells,
    decreases rows.len(),
{
    if rows.len() == 1 {
        assert(rows.drop_first() =~= Seq::empty());
        assert(rows.drop_last() =~= Seq::empty());
        assert(flattened(rows.drop_first()) =~= Seq::empty());
        assert(flattened(rows) =~= flattened(rows.drop_last()) + rows.last().cells);
    } else {
        lemma_flattened_last(rows.drop_first());
        assert(rows.drop_first().drop_last() =~= rows.drop_last().drop_first());
        assert(rows.drop_first().last() == rows.last());
        assert(flattened(rows) =~= flattened(rows.drop_last()) + rows.last().cells);
    }
}

proof fn lemma_one_run(lines: Seq<LineView>)
    requires
        forall|y: int| 0 < y < lines.len() ==> (#[trigger] lines[y]).is_wrapped,
    ensures
        joined(lines).0.len() == 0,
        joined(lines).1 == flattened(lines),
    decreases lines.len(),
{
    if lines.len() > 0 {
        let init = lines.drop_last();
        assert forall|y: int| 0 < y < init.len() implies (#[trigger] init[y]).is_wrapped by {
            assert(init[y] == lines[y]);
        }
        lemma_one_run(init);
        lemma_flattened_last(lines);
        if lines.len() == 1 {
            assert(init =~= Seq::empty());
            assert(joined(init).1 =~= Seq::<Cell>::empty());
        } else {
            assert(lines.last() == lines[lines.len() - 1]);
        }
        assert(joined(lines).1 =~= flattened(lines));
    } else {
        assert(joined(lines).1 =~= flattened(lines));
    }
}

proof fn lemma_rows_shape(cells: Seq<Cell>, widths: Seq<int>, i: int, cols: int, k: int)
    requires
        widths.len() == cells.len(),
        forall|j: int| 0 <= j < widths.len() ==> #[trigger] widths[j] == 1,
        0 <= i <= cells.len(),
        cols > 0,
    ensures
        ({
            let rows = rows_from(cells, widths, i, cols);
            &&& 0 <= k < rows.len() ==> rows[k].cells.len() == cols && rows[k].is_wrapped == (i > 0
                || k > 0)
            &&& cells.len() - i <= cols * rows.len()
            &&& i < cells.len() ==> cols * (rows.len() - 1) < cells.len() - i
        }),
    decreases cells.len() - i,
{
    let rows = rows_from(cells, widths, i, cols);
    if i < cells.len() {
        let blank = blank_line(cols).cells;
        lemma_fill_narrow(cells, widths, i, 0, blank);
        let (row, next) = filled(cells, widths, i, 0, blank);
        lemma_rows_shape(cells, widths, next, cols, k - 1);
        let rest = rows_from(cells, widths, next, cols);
        assert(rows == seq![LineView { cells: row, is_wrapped: i > 0 }] + rest);
        let n = rest.len() as int;
        assert(cols * (n + 1) == cols * n + cols) by (nonlinear_arith);
        assert(cols * (n - 1) == cols * n - cols) by (nonlinear_arith);
        if next == cells.len() {
            assert(rest.len() == 0);
            assert(cols * 0 == 0) by (nonlinear_arith);
        }
    } else {
        assert(cols * 0 == 0) by (nonlinear_arith);
    }
}

/// A run of plain text, that is a line and those that continue it, keeps its characters in their
/// order. Its rows have the new width, and all but the first are marked as continuations. There are
/// no more of them than the text needs.
#[verifier::rlimit(40)]
pub proof fn resizing_keeps_plain_text(s: Screen, lines: Seq<LineView>, cols: int, i: int, y: int)
    requires
        cols > 0,
        lines.len() > 0,
        is_plain_text(lines),
        forall|k: int| 0 < k < lines.len() ==> (#[trigger] lines[k]).is_wrapped,
        i >= 0,
    ensures
        ({
            let rows = broken(s, lines, cols);
            &&& character(flattened(rows), i) == character(flattened(lines), i)
            &&& 0 <= y < rows.len() ==> rows[y].cells.len() == cols && rows[y].is_wrapped == (y > 0)
            &&& i < flattened(lines).len() && flattened(lines)[i].ch != ' ' ==> i < flattened(
                rows,
            ).len() && flattened(rows)[i] == flattened(lines)[i]
            &&& rows.len() > 1 ==> exists|k: int|
                cols * (rows.len() - 1) <= k < flattened(lines).len()
                    && #[trigger] flattened(lines)[k].ch != ' '
        }),
{
    lemma_one_run(lines);
    lemma_joined_plain(lines);
    lemma_run_has_cells(lines);
    lemma_some_rows(lines, cols);
    lemma_broken(s, lines, cols);
    let run = flattened(lines);
    let rows = broken(s, lines, cols);
    let cells = trimmed(run);
    let none = Seq::<Seq<Cell>>::empty();
    assert(joined(lines).0 =~= none);
    assert(text_runs(lines) =~= seq![run]);
    assert(seq![run].drop_last() =~= none);
    assert(all_rows(none, cols) =~= Seq::<LineView>::empty());
    assert(rows =~= run_rows(run, cols));
    lemma_trimmed(run);
    if cells.len() == 0 {
        assert(rows =~= seq![blank_line(cols)]);
        assert(rows.drop_first() =~= Seq::empty());
        assert(flattened(rows.drop_first()) =~= Seq::empty());
        assert(flattened(rows) =~= blank_line(cols).cells);
    } else {
        let widths = widths_of(cells);
        assert forall|j: int| 0 <= j < widths.len() implies #[trigger] widths[j] == 1 by {
            assert(cells[j] == run[j]);
            assert(is_plain(joined(lines).1[j]));
        }
        reflow_keeps_narrow_text(cells, widths, 0, cols);
        lemma_rows_shape(cells, widths, 0, cols, y);
        let text = flattened(rows);
        if i < cells.len() {
            assert(text.take(cells.len() as int)[i] == cells.skip(0)[i]);
            assert(text[i] == cells[i]);
        }
        let last = cells.len() - 1;
        assert(cells[last] == run[last]);
        assert(flattened(lines)[last].ch != ' ');
    }
}

} // verus!
