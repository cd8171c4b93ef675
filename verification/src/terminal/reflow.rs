//! Resizing: the text is broken into lines anew.
use crate::terminal::cell::{blank_line, Cell, Line, LineView};
use crate::terminal::emulator::{lines_view, TerminalEmulator};
use crate::terminal::screen::{least, Screen};
use crate::terminal::width::{char_columns, columns};
use std::collections::VecDeque;
use vstd::prelude::*;

verus! {

/// The columns of a cell: those of its character, and one for the second half of a wide one.
pub open spec fn cell_columns(cell: Cell) -> int {
    if cell.ch == '\0' {
        1
    } else {
        columns(cell.ch)
    }
}

/// The columns of each cell.
pub open spec fn widths_of(cells: Seq<Cell>) -> Seq<int> {
    Seq::new(cells.len(), |i: int| cell_columns(cells[i]))
}

/// Runs of text: each line is joined to the text before it if it continues it, or if that text
/// has no cells. The second part is the run that the last line belongs to.
pub open spec fn joined(lines: Seq<LineView>) -> (Seq<Seq<Cell>>, Seq<Cell>)
    decreases lines.len(),
{
    if lines.len() == 0 {
        (Seq::empty(), Seq::empty())
    } else {
        let (done, run) = joined(lines.drop_last());
        if !lines.last().is_wrapped && run.len() > 0 {
            (done.push(run), lines.last().cells)
        } else {
            (done, run + lines.last().cells)
        }
    }
}

/// The runs of text of a list of lines.
pub open spec fn text_runs(lines: Seq<LineView>) -> Seq<Seq<Cell>> {
    let (done, run) = joined(lines);
    if run.len() > 0 {
        done.push(run)
    } else {
        done
    }
}

/// A run without the spaces at its end.
pub open spec fn trimmed(cells: Seq<Cell>) -> Seq<Cell>
    decreases cells.len(),
{
    if cells.len() > 0 && cells.last().ch == ' ' {
        trimmed(cells.drop_last())
    } else {
        cells
    }
}

/// Cells `i` on go into `row` from column `at` on, each advancing by its width, until the row is
/// full or a wide character would have only the last column. The result is the row and the first
/// cell that did not go in.
pub open spec fn filled(
    cells: Seq<Cell>,
    widths: Seq<int>,
    i: int,
    at: int,
    row: Seq<Cell>,
) -> (Seq<Cell>, int)
    decreases cells.len() - i,
{
    if i < 0 || i >= cells.len() || at >= row.len() || (widths[i] > 1 && at == row.len() - 1) {
        (row, i)
    } else {
        filled(cells, widths, i + 1, at + widths[i], row.update(at, cells[i]))
    }
}

/// The rows of `cols` columns that the cells from `i` on take. All but a run's first row are
/// continuations.
pub open spec fn rows_from(cells: Seq<Cell>, widths: Seq<int>, i: int, cols: int) -> Seq<LineView>
    decreases cells.len() - i,
{
    let (row, next) = filled(cells, widths, i, 0, blank_line(cols).cells);
    if i < 0 || i >= cells.len() || next <= i {
        Seq::empty()
    } else {
        proof {
            filling_advances(cells, widths, i, 0, blank_line(cols).cells);
        }
        seq![LineView { cells: row, is_wrapped: i > 0 }] + rows_from(cells, widths, next, cols)
    }
}

/// The rows that one run of text takes; an empty one takes an untouched row.
pub open spec fn run_rows(cells: Seq<Cell>, cols: int) -> Seq<LineView> {
    if trimmed(cells).len() == 0 {
        seq![blank_line(cols)]
    } else {
        rows_from(trimmed(cells), widths_of(trimmed(cells)), 0, cols)
    }
}

/// The rows that several runs of text take.
pub open spec fn all_rows(runs: Seq<Seq<Cell>>, cols: int) -> Seq<LineView>
    decreases runs.len(),
{
    if runs.len() == 0 {
        Seq::empty()
    } else {
        all_rows(runs.drop_last(), cols) + run_rows(runs.last(), cols)
    }
}

/// Whether no cell of the lines is wide.
pub open spec fn all_narrow(lines: Seq<LineView>) -> bool {
    forall|y: int, x: int|
        0 <= y < lines.len() && 0 <= x < lines[y].cells.len() ==> cell_columns(
            #[trigger] lines[y].cells[x],
        ) <= 1
}

/// Whether no cell of a run is wide.
pub open spec fn run_narrow(cells: Seq<Cell>) -> bool {
    forall|x: int| 0 <= x < cells.len() ==> cell_columns(#[trigger] cells[x]) <= 1
}

impl Screen {
    /// Whether the text can be broken into rows of `cols` columns: a single column holds no wide
    /// character.
    pub open spec fn fits_columns(self, cols: int) -> bool {
        cols > 1 || (cols == 1 && all_narrow(self.history) && all_narrow(self.grid))
    }

    /// The terminal with another size. The text keeps its order; what does not fit on the screen
    /// goes to the history, and a screen that has room left ends in untouched rows.
    pub open spec fn resized(self, rows: int, cols: int) -> Screen {
        if self.rows == rows && self.cols == cols {
            self
        } else {
            let lines = all_rows(text_runs(self.history + self.grid), cols);
            let split = if lines.len() <= rows {
                0
            } else {
                lines.len() - rows
            };
            let shown = lines.skip(split);
            Screen {
                rows,
                cols,
                history: lines.take(split),
                grid: shown + Seq::new((rows - shown.len()) as nat, |y: int| blank_line(cols)),
                region: (0, rows - 1),
                cursor_x: least(self.cursor_x, cols - 1),
                cursor_y: least(self.cursor_y, rows - 1),
                offset: least(self.offset, split as int),
                ..self
            }
        }
    }
}

/// The columns of a cell.
fn columns_of(cell: Cell) -> (w: usize)
    ensures
        w == cell_columns(cell),
        w <= 3,
{
    if cell.ch == '\0' {
        1
    } else {
        char_columns(cell.ch)
    }
}

/// The widths as mathematical integers.
pub open spec fn ints(widths: Seq<usize>) -> Seq<int> {
    Seq::new(widths.len(), |i: int| widths[i] as int)
}

/// Filling a row goes forward through the cells and not past their end.
pub proof fn filling_advances(cells: Seq<Cell>, widths: Seq<int>, i: int, at: int, row: Seq<Cell>)
    ensures
        filled(cells, widths, i, at, row).1 >= i,
        filled(cells, widths, i, at, row).1 <= cells.len() || filled(cells, widths, i, at, row).1
            == i,
    decreases cells.len() - i,
{
    if i < 0 || i >= cells.len() || at >= row.len() || (widths[i] > 1 && at == row.len() - 1) {
    } else {
        filling_advances(cells, widths, i + 1, at + widths[i], row.update(at, cells[i]));
    }
}

/// Breaks a run of cells with the given widths into rows of `cols` columns.
pub fn reflow_run(cells: &Vec<Cell>, widths: &Vec<usize>, cols: usize) -> (rows: VecDeque<Line>)
    requires
        widths@.len() == cells@.len(),
        0 < cols <= isize::MAX,
        forall|i: int| 0 <= i < widths@.len() ==> (#[trigger] widths@[i]) <= 3,
        cols > 1 || forall|i: int| 0 <= i < widths@.len() ==> (#[trigger] widths@[i]) <= 1,
    ensures
        lines_view(rows@) == rows_from(cells@, ints(widths@), 0, cols as int),
        forall|k: int| 0 <= k < rows@.len() ==> (#[trigger] rows@[k]).cells@.len() == cols,
{
    let ghost w = ints(widths@);
    let ghost blank = blank_line(cols as int).cells;
    let mut rows: VecDeque<Line> = VecDeque::new();
    let mut i: usize = 0;
    assert(lines_view(rows@) + rows_from(cells@, w, 0, cols as int) =~= rows_from(
        cells@,
        w,
        0,
        cols as int,
    ));
    while i < cells.len()
        invariant
            i <= cells@.len(),
            widths@.len() == cells@.len(),
            w == ints(widths@),
            0 < cols <= isize::MAX,
            blank == blank_line(cols as int).cells,
            forall|k: int| 0 <= k < widths@.len() ==> (#[trigger] widths@[k]) <= 3,
            cols > 1 || forall|k: int| 0 <= k < widths@.len() ==> (#[trigger] widths@[k]) <= 1,
            forall|k: int| 0 <= k < rows@.len() ==> (#[trigger] rows@[k]).cells@.len() == cols,
            lines_view(rows@) + rows_from(cells@, w, i as int, cols as int) == rows_from(
                cells@,
                w,
                0,
                cols as int,
            ),
        decreases cells@.len() - i,
    {
        let start: usize = i;
        let mut line = Line::new(cols);
        let mut added: usize = 0;
        let mut stop: bool = false;
        proof {
            filling_advances(cells@, w, start as int, 0, blank);
            assert(filled(cells@, w, start as int, 0, blank) == filled(
                cells@,
                w,
                start + 1,
                w[start as int],
                blank.update(0, cells@[start as int]),
            ));
            filling_advances(
                cells@,
                w,
                start + 1,
                w[start as int],
                blank.update(0, cells@[start as int]),
            );
        }
        while !stop && added < cols && i < cells.len()
            invariant
                start <= i <= cells@.len(),
                widths@.len() == cells@.len(),
                w == ints(widths@),
                0 < cols <= isize::MAX,
                line.cells@.len() == cols,
                !line.is_wrapped,
                added <= cols + 2,
                forall|k: int| 0 <= k < widths@.len() ==> (#[trigger] widths@[k]) <= 3,
                filled(cells@, w, start as int, 0, blank) == filled(
                    cells@,
                    w,
                    i as int,
                    added as int,
                    line.cells@,
                ),
                stop ==> filled(cells@, w, i as int, added as int, line.cells@) == (
                    line.cells@,
                    i as int,
                ),
            decreases cells@.len() - i, !stop as int,
        {
            let cell = cells[i];
            let width: usize = widths[i];
            assert(w[i as int] == width);
            if width > 1 && added == cols - 1 {
                stop = true;
            } else {
                line.cells.set(added, cell);
                added = added + width;
                i = i + 1;
            }
        }
        assert(filled(cells@, w, start as int, 0, blank) == (line.cells@, i as int));
        line.is_wrapped = start > 0;
        let ghost row = line@;
        let ghost before = rows@;
        rows.push_back(line);
        proof {
            assert(rows_from(cells@, w, start as int, cols as int) == seq![row] + rows_from(
                cells@,
                w,
                i as int,
                cols as int,
            ));
            assert(lines_view(rows@) =~= lines_view(before) + seq![row]);
            assert(lines_view(rows@) + rows_from(cells@, w, i as int, cols as int)
                =~= lines_view(before) + (seq![row] + rows_from(cells@, w, i as int, cols as int)));
        }
    }
    assert(rows_from(cells@, w, i as int, cols as int) =~= Seq::empty());
    assert(lines_view(rows@) + Seq::<LineView>::empty() =~= lines_view(rows@));
    rows
}

/// Breaks a run of text into rows of `cols` columns.
fn reflow_text(run: Vec<Cell>, cols: usize) -> (rows: VecDeque<Line>)
    requires
        0 < cols <= isize::MAX,
        cols > 1 || run_narrow(run@),
    ensures
        lines_view(rows@) == run_rows(run@, cols as int),
        forall|k: int| 0 <= k < rows@.len() ==> (#[trigger] rows@[k]).cells@.len() == cols,
{
    let mut cells = run;
    while cells.len() > 0 && cells[cells.len() - 1].ch == ' '
        invariant
            trimmed(cells@) == trimmed(run@),
            cols > 1 || run_narrow(cells@),
        decreases cells@.len(),
    {
        let _ = cells.pop();
    }
    assert(cells@ == trimmed(run@));
    if cells.len() == 0 {
        let mut rows: VecDeque<Line> = VecDeque::new();
        rows.push_back(Line::new(cols));
        assert(lines_view(rows@) =~= run_rows(run@, cols as int));
        return rows;
    }
    let mut widths: Vec<usize> = Vec::new();
    let mut i: usize = 0;
    while i < cells.len()
        invariant
            i <= cells@.len(),
            widths@.len() == i,
            forall|k: int|
                0 <= k < i ==> (#[trigger] widths@[k]) == cell_columns(cells@[k]) && widths@[k]
                    <= 3,
        decreases cells@.len() - i,
    {
        let width: usize = columns_of(cells[i]);
        widths.push(width);
        i = i + 1;
    }
    assert(ints(widths@) =~= widths_of(cells@));
    assert(cols > 1 || forall|k: int|
        0 <= k < widths@.len() ==> (#[trigger] widths@[k]) <= 1) by {
        if cols <= 1 {
            assert forall|k: int| 0 <= k < widths@.len() implies (#[trigger] widths@[k]) <= 1 by {
                assert(cell_columns(cells@[k]) <= 1);
            }
        }
    }
    reflow_run(&cells, &widths, cols)
}

/// Joins lines into runs of text.
fn join_lines(lines: VecDeque<Line>) -> (runs: Vec<Vec<Cell>>)
    ensures
        runs_view(runs@) == text_runs(lines_view(lines@)),
{
    let ghost all = lines_view(lines@);
    let mut rest = lines;
    let mut runs: Vec<Vec<Cell>> = Vec::new();
    let mut current: Vec<Cell> = Vec::new();
    let ghost mut taken: int = 0;
    assert(all.take(0) =~= Seq::empty());
    assert(runs_view(runs@) =~= Seq::empty());
    while rest.len() > 0
        invariant
            0 <= taken <= all.len(),
            lines_view(rest@) == all.skip(taken),
            (runs_view(runs@), current@) == joined(all.take(taken)),
        decreases rest@.len(),
    {
        let ghost rest_before = rest@;
        let line = rest.pop_front().unwrap();
        proof {
            assert(lines_view(rest_before).len() == all.skip(taken).len());
            assert(line@ == lines_view(rest_before)[0]);
            assert(line@ == all[taken]);
            assert(all.take(taken + 1).drop_last() =~= all.take(taken));
            assert(lines_view(rest@) =~= lines_view(rest_before).drop_first());
            assert(all.skip(taken).drop_first() =~= all.skip(taken + 1));
        }
        let mut cells = line.cells;
        let ghost runs_before = runs@;
        if !line.is_wrapped && current.len() > 0 {
            runs.push(current);
            current = Vec::new();
            assert(runs_view(runs@) =~= runs_view(runs_before).push(
                joined(all.take(taken)).1,
            ));
        }
        current.append(&mut cells);
        proof {
            taken = taken + 1;
            assert(Seq::<Cell>::empty() + line@.cells =~= line@.cells);
        }
    }
    assert(all.take(taken) =~= all);
    let ghost runs_before = runs@;
    if current.len() > 0 {
        runs.push(current);
        assert(runs_view(runs@) =~= runs_view(runs_before).push(joined(all).1));
    }
    runs
}

/// Runs of cells as mathematical values.
pub open spec fn runs_view(runs: Seq<Vec<Cell>>) -> Seq<Seq<Cell>> {
    Seq::new(runs.len(), |i: int| runs[i]@)
}

/// A narrow text has narrow runs.
proof fn lemma_runs_narrow(lines: Seq<LineView>)
    requires
        all_narrow(lines),
    ensures
        run_narrow(joined(lines).1),
        forall|i: int|
            0 <= i < joined(lines).0.len() ==> run_narrow(#[trigger] joined(lines).0[i]),
    decreases lines.len(),
{
    if lines.len() > 0 {
        let shorter = lines.drop_last();
        assert(all_narrow(shorter)) by {
            assert forall|y: int, x: int|
                0 <= y < shorter.len() && 0 <= x < shorter[y].cells.len() implies cell_columns(
                #[trigger] shorter[y].cells[x],
            ) <= 1 by {
                assert(shorter[y] == lines[y]);
                assert(cell_columns(lines[y].cells[x]) <= 1);
            }
        }
        lemma_runs_narrow(shorter);
        let last = lines.last();
        assert(run_narrow(last.cells)) by {
            assert forall|x: int| 0 <= x < last.cells.len() implies cell_columns(
                #[trigger] last.cells[x],
            ) <= 1 by {
                assert(cell_columns(lines[lines.len() - 1].cells[x]) <= 1);
            }
        }
        let run = joined(shorter).1;
        assert forall|x: int| 0 <= x < (run + last.cells).len() implies cell_columns(
            #[trigger] (run + last.cells)[x],
        ) <= 1 by {
            if x < run.len() {
                assert(cell_columns(run[x]) <= 1);
            } else {
                assert(cell_columns(last.cells[x - run.len()]) <= 1);
            }
        }
        if !last.is_wrapped && run.len() > 0 {
            let runs = joined(shorter).0.push(run);
            assert forall|i: int| 0 <= i < runs.len() implies run_narrow(#[trigger] runs[i]) by {
                if i < joined(shorter).0.len() {
                    assert(run_narrow(joined(shorter).0[i]));
                }
            }
        }
    }
}

impl TerminalEmulator {
    /// Whether no cell of the lines is wide.
    fn lines_narrow(lines: &VecDeque<Line>) -> (b: bool)
        ensures
            b == all_narrow(lines_view(lines@)),
    {
        let ghost view = lines_view(lines@);
        let mut y: usize = 0;
        while y < lines.len()
            invariant
                y <= lines@.len(),
                view == lines_view(lines@),
                forall|k: int, x: int|
                    0 <= k < y && 0 <= x < view[k].cells.len() ==> cell_columns(
                        #[trigger] view[k].cells[x],
                    ) <= 1,
            decreases lines@.len() - y,
        {
            let mut x: usize = 0;
            while x < lines[y].cells.len()
                invariant
                    y < lines@.len(),
                    view == lines_view(lines@),
                    x <= view[y as int].cells.len(),
                    forall|j: int|
                        0 <= j < x ==> cell_columns(#[trigger] view[y as int].cells[j]) <= 1,
                decreases view[y as int].cells.len() - x,
            {
                if columns_of(lines[y].cells[x]) > 1 {
                    assert(cell_columns(view[y as int].cells[x as int]) > 1);
                    return false;
                }
                x = x + 1;
            }
            y = y + 1;
        }
        true
    }

    /// Changes the size of the terminal.
    pub fn resize(&mut self, new_rows: usize, new_cols: usize)
        requires
            old(self)@.wf(),
            0 < new_rows <= isize::MAX,
            0 < new_cols <= isize::MAX,
            old(self)@.fits_columns(new_cols as int) || (old(self)@.rows == new_rows
                && old(self)@.cols == new_cols),
        ensures
            final(self)@ == old(self)@.resized(new_rows as int, new_cols as int),
            final(self)@.wf(),
    {
        if self.cols == new_cols && self.rows == new_rows {
            return;
        }
        let ghost before = self@;
        let ghost joint = before.history + before.grid;
        let mut lines: VecDeque<Line> = VecDeque::new();
        lines.append(&mut self.history);
        lines.append(&mut self.grid);
        assert(lines_view(lines@) =~= joint);
        let mut runs = join_lines(lines);
        let ghost texts = text_runs(joint);
        assert(new_cols > 1 || forall|i: int|
            0 <= i < texts.len() ==> run_narrow(#[trigger] texts[i])) by {
            if new_cols <= 1 {
                assert(all_narrow(joint)) by {
                    assert forall|y: int, x: int|
                        0 <= y < joint.len() && 0 <= x < joint[y].cells.len() implies cell_columns(
                        #[trigger] joint[y].cells[x],
                    ) <= 1 by {
                        if y < before.history.len() {
                            assert(cell_columns(before.history[y].cells[x]) <= 1);
                        } else {
                            let k = y - before.history.len();
                            assert(cell_columns(before.grid[k].cells[x]) <= 1);
                        }
                    }
                }
                lemma_runs_narrow(joint);
            }
        }
        let mut new_lines: VecDeque<Line> = VecDeque::new();
        let mut i: usize = 0;
        assert(texts.take(0) =~= Seq::empty());
        assert(lines_view(new_lines@) =~= Seq::empty());
        while i < runs.len()
            invariant
                i <= runs@.len(),
                runs@.len() == texts.len(),
                0 < new_cols <= isize::MAX,
                forall|k: int| i <= k < runs@.len() ==> (#[trigger] runs@[k])@ == texts[k],
                new_cols > 1 || forall|k: int|
                    0 <= k < texts.len() ==> run_narrow(#[trigger] texts[k]),
                lines_view(new_lines@) == all_rows(texts.take(i as int), new_cols as int),
                forall|k: int|
                    0 <= k < new_lines@.len() ==> (#[trigger] new_lines@[k]).cells@.len()
                        == new_cols,
            decreases runs@.len() - i,
        {
            let ghost done = lines_view(new_lines@);
            let mut run: Vec<Cell> = Vec::new();
            std::mem::swap(&mut run, &mut runs[i]);
            assert(run@ == texts[i as int]);
            let mut rows = reflow_text(run, new_cols);
            let ghost added = lines_view(rows@);
            new_lines.append(&mut rows);
            proof {
                assert(texts.take(i + 1).drop_last() =~= texts.take(i as int));
                assert(lines_view(new_lines@) =~= done + added);
            }
            i = i + 1;
        }
        assert(texts.take(i as int) =~= texts);
        self.cols = new_cols;
        self.rows = new_rows;
        let ghost flowed = lines_view(new_lines@);
        if new_lines.len() > new_rows {
            let split_at: usize = new_lines.len() - new_rows;
            let shown = new_lines.split_off(split_at);
            self.history = new_lines;
            self.grid = shown;
            assert(self@.history =~= flowed.take(split_at as int));
            assert(self@.grid =~= flowed.skip(split_at as int));
        } else {
            self.grid = new_lines;
            assert(self@.history =~= flowed.take(0));
            assert(self@.grid =~= flowed.skip(0));
        }
        let ghost shown = self@.grid;
        while self.grid.len() < self.rows
            invariant
                shown.len() <= self.grid@.len() <= self.rows,
                self.rows == new_rows,
                self.cols == new_cols,
                *self == (TerminalEmulator { grid: self.grid, ..*self }),
                self@.history == flowed.take(flowed.len() - shown.len()),
                self@ == (Screen {
                    rows: new_rows as int,
                    cols: new_cols as int,
                    history: self@.history,
                    grid: self@.grid,
                    ..before
                }),
                forall|k: int|
                    0 <= k < self.grid@.len() ==> (#[trigger] self@.grid[k]) == (if k
                        < shown.len() {
                        shown[k]
                    } else {
                        blank_line(new_cols as int)
                    }),
            decreases self.rows - self.grid@.len(),
        {
            let ghost shorter = self@.grid;
            self.grid.push_back(Line::new(self.cols));
            assert(self@.grid =~= shorter.push(blank_line(new_cols as int)));
        }
        self.scrolling_region = (0, self.rows - 1);
        if self.cursor_x > self.cols - 1 {
            self.cursor_x = self.cols - 1;
        }
        if self.cursor_y > self.rows - 1 {
            self.cursor_y = self.rows - 1;
        }
        if self.display_offset > self.history.len() {
            self.display_offset = self.history.len();
        }
        assert(self@ =~= before.resized(new_rows as int, new_cols as int));
    }

    /// Changes the size of the terminal where it can take that size, and says whether it could.
    pub fn try_resize(&mut self, new_rows: usize, new_cols: usize) -> (done: bool)
        requires
            old(self)@.wf(),
        ensures
            done == (0 < new_rows <= isize::MAX && 0 < new_cols <= isize::MAX && (
            old(self)@.fits_columns(new_cols as int) || (old(self)@.rows == new_rows
                && old(self)@.cols == new_cols))),
            done ==> final(self)@ == old(self)@.resized(new_rows as int, new_cols as int),
            !done ==> final(self)@ == old(self)@,
            final(self)@.wf(),
    {
        if new_rows == 0 || new_cols == 0 || new_rows > isize::MAX as usize || new_cols
            > isize::MAX as usize {
            return false;
        }
        let same: bool = self.rows == new_rows && self.cols == new_cols;
        if same || new_cols > 1 || (Self::lines_narrow(&self.history) && Self::lines_narrow(
            &self.grid,
        )) {
            self.resize(new_rows, new_cols);
            true
        } else {
            false
        }
    }
}

} // verus!
