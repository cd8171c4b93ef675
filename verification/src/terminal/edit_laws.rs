//! What the control codes and sequences are for, cell by cell.
use crate::terminal::cell::{Cell, Color, LineView};
use crate::terminal::screen::Screen;
use crate::terminal::vt::Action;
use crate::terminal::width::unicode_width;
use vstd::prelude::*;

verus! {

/// Whether the first value of the parameters is `n`. Without parameters it is zero.
pub open spec fn asks_for(params: Seq<Seq<u16>>, n: int) -> bool {
    if params.len() == 0 {
        n == 0
    } else {
        params[0].len() > 0 && params[0][0] == n
    }
}

/// Whether a cell is a space without attributes in the colours of the terminal's pen.
pub open spec fn is_blank(s: Screen, cell: Cell) -> bool {
    &&& cell.ch == ' '
    &&& cell.fg == s.pen.fg
    &&& cell.bg == s.pen.bg
    &&& !cell.bold
    &&& !cell.italic
    &&& !cell.underline
}

/// Whether a cell is a plain white space on black.
pub open spec fn is_untouched(cell: Cell) -> bool {
    &&& cell.ch == ' '
    &&& cell.fg == (Color { r: 255, g: 255, b: 255 })
    &&& cell.bg == (Color { r: 0, g: 0, b: 0 })
    &&& !cell.bold
    &&& !cell.italic
    &&& !cell.underline
}

/// Whether a line is `cols` plain spaces and continues nothing.
pub open spec fn is_untouched_line(line: LineView, cols: int) -> bool {
    &&& line.cells.len() == cols
    &&& !line.is_wrapped
    &&& forall|x: int| 0 <= x < cols ==> is_untouched(#[trigger] line.cells[x])
}

/// Whether two terminals have the same size, text, history and cursor.
pub open spec fn shows_the_same(s: Screen, t: Screen) -> bool {
    &&& t.rows == s.rows
    &&& t.cols == s.cols
    &&& t.grid == s.grid
    &&& t.history == s.history
    &&& t.cursor_x == s.cursor_x
    &&& t.cursor_y == s.cursor_y
}

/// Whether two terminals have the same pen, scrolling region, view, selection and replies.
pub open spec fn is_set_up_the_same(s: Screen, t: Screen) -> bool {
    &&& t.pen == s.pen
    &&& t.region == s.region
    &&& t.offset == s.offset
    &&& t.selection == s.selection
    &&& t.responses == s.responses
    &&& t.preedit == s.preedit
}

/// Erasing to the end of the screen leaves blanks from the cursor to the end of its row, and in
/// every row below it. What comes before the cursor stays, but for the first half of a wide
/// character that the cursor cuts in two.
#[verifier::rlimit(40)]
pub proof fn erasing_to_the_end(s: Screen, params: Seq<Seq<u16>>)
    requires
        s.wf(),
        s.accepts_csi(params, Seq::empty(), false, 'J'),
        asks_for(params, 0),
    ensures
        ({
            let t = s.csi(params, Seq::empty(), false, 'J');
            &&& t.grid.len() == s.rows
            &&& forall|y: int, x: int|
                s.cursor_y < y < s.rows && 0 <= x < s.cols ==> is_blank(
                    s,
                    #[trigger] t.grid[y].cells[x],
                )
            &&& forall|x: int|
                s.cursor_x <= x < s.cols ==> is_blank(
                    s,
                    #[trigger] t.grid[s.cursor_y].cells[x],
                )
            &&& forall|x: int|
                0 <= x < s.cursor_x && (x != s.cursor_x - 1
                    || s.grid[s.cursor_y].cells[s.cursor_x].ch != '\0')
                    ==> #[trigger] t.grid[s.cursor_y].cells[x] == s.grid[s.cursor_y].cells[x]
            &&& forall|y: int| 0 <= y < s.cursor_y ==> #[trigger] t.grid[y] == s.grid[y]
            &&& 0 < s.cursor_x < s.cols && s.grid[s.cursor_y].cells[s.cursor_x].ch == '\0'
                ==> is_blank(s, t.grid[s.cursor_y].cells[s.cursor_x - 1])
            &&& t.grid[s.cursor_y].is_wrapped == (s.grid[s.cursor_y].is_wrapped && s.cursor_x > 0)
            &&& forall|y: int| s.cursor_y < y < s.rows ==> !(#[trigger] t.grid[y]).is_wrapped
            &&& forall|y: int| 0 <= y < s.rows ==> (#[trigger] t.grid[y]).cells.len() == s.cols
            &&& t.cursor_x == s.cursor_x && t.cursor_y == s.cursor_y
            &&& t.history == s.history && is_set_up_the_same(s, t)
        }),
{
}

/// Erasing from the start of the screen leaves blanks in every row above the cursor, and in the
/// cursor's row up to the cursor and with it. What comes behind the cursor stays, but for the second
/// half of a wide character that the cursor cuts in two.
#[verifier::rlimit(40)]
pub proof fn erasing_from_the_start(s: Screen, params: Seq<Seq<u16>>)
    requires
        s.wf(),
        asks_for(params, 1),
    ensures
        ({
            let t = s.csi(params, Seq::empty(), false, 'J');
            &&& t.grid.len() == s.rows
            &&& forall|y: int, x: int|
                0 <= y < s.cursor_y && 0 <= x < s.cols ==> is_blank(
                    s,
                    #[trigger] t.grid[y].cells[x],
                )
            &&& forall|x: int|
                0 <= x <= s.cursor_x && x < s.cols ==> is_blank(
                    s,
                    #[trigger] t.grid[s.cursor_y].cells[x],
                )
            &&& forall|x: int|
                s.cursor_x < x < s.cols && (x != s.cursor_x + 1
                    || s.grid[s.cursor_y].cells[x].ch != '\0')
                    ==> #[trigger] t.grid[s.cursor_y].cells[x] == s.grid[s.cursor_y].cells[x]
            &&& forall|y: int| s.cursor_y < y < s.rows ==> #[trigger] t.grid[y] == s.grid[y]
            &&& forall|y: int| 0 <= y < s.cursor_y ==> !(#[trigger] t.grid[y]).is_wrapped
            &&& s.cursor_x + 1 < s.cols && s.grid[s.cursor_y].cells[s.cursor_x + 1].ch == '\0'
                ==> is_blank(s, t.grid[s.cursor_y].cells[s.cursor_x + 1])
            &&& t.grid[s.cursor_y].is_wrapped == s.grid[s.cursor_y].is_wrapped
            &&& forall|y: int| 0 <= y < s.rows ==> (#[trigger] t.grid[y]).cells.len() == s.cols
            &&& t.cursor_x == s.cursor_x && t.cursor_y == s.cursor_y
            &&& t.history == s.history && is_set_up_the_same(s, t)
        }),
{
}

/// Erasing the screen leaves blanks everywhere and takes the cursor to the top left. The history
/// stays. Other numbers erase nothing.
#[verifier::rlimit(40)]
pub proof fn erasing_the_screen(s: Screen, params: Seq<Seq<u16>>, n: int)
    requires
        s.wf(),
        asks_for(params, n),
        n >= 2,
    ensures
        ({
            let t = s.csi(params, Seq::empty(), false, 'J');
            &&& n == 2 ==> {
                &&& t.grid.len() == s.rows
                &&& forall|y: int, x: int|
                    0 <= y < s.rows && 0 <= x < s.cols ==> is_blank(
                        s,
                        #[trigger] t.grid[y].cells[x],
                    )
                &&& forall|y: int|
                    0 <= y < s.rows ==> (#[trigger] t.grid[y]).cells.len() == s.cols
                        && !t.grid[y].is_wrapped
                &&& t.cursor_x == 0 && t.cursor_y == 0
            }
            &&& n > 2 ==> shows_the_same(s, t)
            &&& t.history == s.history && is_set_up_the_same(s, t)
        }),
{
}

/// Erasing in a line leaves blanks from the cursor on (0), up to the cursor and with it (1), or
/// everywhere in the line (2). Nothing else changes, but for the other half of a wide character that
/// the cursor cuts in two.
#[verifier::rlimit(40)]
pub proof fn erasing_in_a_line(s: Screen, params: Seq<Seq<u16>>, n: int)
    requires
        s.wf(),
        s.accepts_csi(params, Seq::empty(), false, 'K'),
        asks_for(params, n),
    ensures
        ({
            let t = s.csi(params, Seq::empty(), false, 'K');
            let before = s.grid[s.cursor_y].cells;
            let after = t.grid[s.cursor_y].cells;
            &&& t.grid.len() == s.rows
            &&& after.len() == s.cols
            &&& n == 0 ==> {
                &&& forall|x: int| s.cursor_x <= x < s.cols ==> is_blank(s, #[trigger] after[x])
                &&& forall|x: int|
                    0 <= x < s.cursor_x && (x != s.cursor_x - 1 || before[s.cursor_x].ch != '\0')
                        ==> #[trigger] after[x] == before[x]
            }
            &&& n == 1 ==> {
                &&& forall|x: int|
                    0 <= x <= s.cursor_x && x < s.cols ==> is_blank(s, #[trigger] after[x])
                &&& forall|x: int|
                    s.cursor_x < x < s.cols && (x != s.cursor_x + 1 || before[x].ch != '\0')
                        ==> #[trigger] after[x] == before[x]
            }
            &&& n == 2 ==> forall|x: int| 0 <= x < s.cols ==> is_blank(s, #[trigger] after[x])
            &&& n == 0 && 0 < s.cursor_x < s.cols && before[s.cursor_x].ch == '\0' ==> is_blank(
                s,
                after[s.cursor_x - 1],
            )
            &&& n == 1 && s.cursor_x + 1 < s.cols && before[s.cursor_x + 1].ch == '\0' ==> is_blank(
                s,
                after[s.cursor_x + 1],
            )
            &&& n == 2 || (n == 0 && s.cursor_x == 0) ==> !t.grid[s.cursor_y].is_wrapped
            &&& n == 1 || (n == 0 && s.cursor_x > 0) ==> t.grid[s.cursor_y].is_wrapped
                == s.grid[s.cursor_y].is_wrapped
            &&& n > 2 ==> t.grid == s.grid
            &&& forall|y: int|
                0 <= y < s.rows && y != s.cursor_y ==> #[trigger] t.grid[y] == s.grid[y]
            &&& t.cursor_x == s.cursor_x && t.cursor_y == s.cursor_y
            &&& t.history == s.history && is_set_up_the_same(s, t)
        }),
{
    let t = s.csi(params, Seq::empty(), false, 'K');
    if n > 2 {
        assert(t.grid =~= s.grid);
    }
}

/// Inserting characters puts blanks at the cursor and moves what stood there to the right, as far
/// as the line goes. Wide characters that are cut in two are left out.
#[verifier::rlimit(40)]
pub proof fn inserting_characters(s: Screen, params: Seq<Seq<u16>>, n: int)
    requires
        s.wf(),
        s.cursor_x < s.cols,
        asks_for(params, n),
    ensures
        ({
            let t = s.csi(params, Seq::empty(), false, '@');
            let before = s.grid[s.cursor_y].cells;
            let after = t.grid[s.cursor_y].cells;
            let many = if n == 0 {
                1
            } else {
                n
            };
            &&& t.grid.len() == s.rows
            &&& after.len() == s.cols
            &&& forall|x: int|
                s.cursor_x <= x < s.cursor_x + many && x < s.cols ==> is_blank(
                    s,
                    #[trigger] after[x],
                )
            &&& forall|x: int|
                s.cursor_x <= x && x + many < s.cols && (x != s.cursor_x || before[x].ch != '\0')
                    ==> #[trigger] before[x] == after[x + many]
            &&& before[s.cursor_x].ch == '\0' && s.cursor_x + many < s.cols ==> after[s.cursor_x
                + many] == (Cell { ch: ' ', ..before[s.cursor_x] })
            &&& before[s.cursor_x].ch == '\0' && s.cursor_x > 0 ==> after[s.cursor_x - 1] == (Cell {
                ch: ' ',
                ..before[s.cursor_x - 1]
            })
            &&& forall|x: int|
                0 <= x < s.cursor_x && (x != s.cursor_x - 1 || before[s.cursor_x].ch != '\0')
                    ==> #[trigger] after[x] == before[x]
            &&& forall|y: int|
                0 <= y < s.rows && y != s.cursor_y ==> #[trigger] t.grid[y] == s.grid[y]
            &&& t.grid[s.cursor_y].is_wrapped == s.grid[s.cursor_y].is_wrapped
            &&& t.cursor_x == s.cursor_x && t.cursor_y == s.cursor_y
            &&& t.history == s.history && is_set_up_the_same(s, t)
        }),
{
    let t = s.csi(params, Seq::empty(), false, '@');
    let before = s.grid[s.cursor_y].cells;
    let after = t.grid[s.cursor_y].cells;
    let many = if n == 0 {
        1
    } else {
        n
    };
    assert forall|x: int|
        s.cursor_x <= x && x + many < s.cols && (x != s.cursor_x || before[x].ch != '\0') implies (
    #[trigger] before[x]) == after[x + many] by {
        assert(after[x + many] == before[x + many - many]);
    }
}

/// Deleting characters moves what stands behind them to the cursor, and leaves blanks at the end of
/// the line. Where no prompt is watched, erasing characters does the same. Wide characters that are
/// cut in two are left out.
#[verifier::rlimit(40)]
pub proof fn deleting_characters(s: Screen, params: Seq<Seq<u16>>, n: int, action: char)
    requires
        s.wf(),
        s.cursor_x < s.cols,
        asks_for(params, n),
        action == 'P' || (action == 'X' && (s.prompt_y is None || s.cursor_y < s.prompt_y->0)),
    ensures
        ({
            let t = s.csi(params, Seq::empty(), false, action);
            let before = s.grid[s.cursor_y].cells;
            let after = t.grid[s.cursor_y].cells;
            let many = if n == 0 {
                1
            } else {
                n
            };
            &&& t.grid.len() == s.rows
            &&& after.len() == s.cols
            &&& forall|x: int|
                s.cursor_x <= x && x + many < s.cols && (x != s.cursor_x || before[x + many].ch
                    != '\0') ==> #[trigger] after[x] == before[x + many]
            &&& forall|x: int|
                s.cursor_x <= x < s.cols && x + many >= s.cols ==> is_blank(s, #[trigger] after[x])
            &&& s.cursor_x + many < s.cols && before[s.cursor_x + many].ch == '\0'
                ==> after[s.cursor_x] == (Cell { ch: ' ', ..before[s.cursor_x + many] })
            &&& before[s.cursor_x].ch == '\0' && s.cursor_x > 0 ==> after[s.cursor_x - 1] == (Cell {
                ch: ' ',
                ..before[s.cursor_x - 1]
            })
            &&& forall|x: int|
                0 <= x < s.cursor_x && (x != s.cursor_x - 1 || before[s.cursor_x].ch != '\0')
                    ==> #[trigger] after[x] == before[x]
            &&& forall|y: int|
                0 <= y < s.rows && y != s.cursor_y ==> #[trigger] t.grid[y] == s.grid[y]
            &&& t.grid[s.cursor_y].is_wrapped == s.grid[s.cursor_y].is_wrapped
            &&& t.cursor_x == s.cursor_x && t.cursor_y == s.cursor_y
            &&& t.history == s.history && is_set_up_the_same(s, t)
        }),
{
}

/// On a watched prompt, erasing characters clears what is left of the edited line: the rest of a row
/// that was printed to since the cursor jumped up, and the whole of another row.
#[verifier::rlimit(40)]
pub proof fn erasing_a_watched_prompt(s: Screen, params: Seq<Seq<u16>>, n: int)
    requires
        s.wf(),
        asks_for(params, n),
        s.accepts_csi(params, Seq::empty(), false, 'X'),
        s.prompt_y is Some,
        s.cursor_y >= s.prompt_y->0,
    ensures
        ({
            let t = s.csi(params, Seq::empty(), false, 'X');
            let before = s.grid[s.cursor_y].cells;
            let after = t.grid[s.cursor_y].cells;
            let printed = s.printed.contains(s.cursor_y as usize);
            &&& t.grid.len() == s.rows
            &&& after.len() == s.cols
            &&& forall|x: int|
                0 <= x < s.cols && (!printed || s.cursor_x <= x) ==> is_blank(
                    s,
                    #[trigger] after[x],
                )
            &&& t.last_csi == Some(('X', n as usize, true))
            &&& t.timeout == s.timeout && t.prompt_y == s.prompt_y
            &&& printed ==> forall|x: int|
                0 <= x < s.cursor_x && (x != s.cursor_x - 1 || before[s.cursor_x].ch != '\0')
                    ==> #[trigger] after[x] == before[x]
            &&& forall|y: int|
                0 <= y < s.rows && y != s.cursor_y ==> #[trigger] t.grid[y] == s.grid[y]
            &&& t.cursor_x == s.cursor_x && t.cursor_y == s.cursor_y
            &&& t.history == s.history && is_set_up_the_same(s, t)
        }),
{
}

/// The cursor moves up, down and left by the number that is asked for, or by one, and stops at the
/// edge of the screen. The text stays.
#[verifier::rlimit(40)]
pub proof fn moving_the_cursor(s: Screen, params: Seq<Seq<u16>>, n: int)
    requires
        s.wf(),
        asks_for(params, n),
    ensures
        ({
            let up = s.csi(params, Seq::empty(), false, 'A');
            let down = s.csi(params, Seq::empty(), false, 'B');
            let left = s.csi(params, Seq::empty(), false, 'D');
            let many = if n == 0 {
                1
            } else {
                n
            };
            &&& many <= s.cursor_y ==> up.cursor_y == s.cursor_y - many
            &&& many > s.cursor_y ==> up.cursor_y == 0
            &&& s.cursor_y + many < s.rows ==> down.cursor_y == s.cursor_y + many
            &&& s.cursor_y + many >= s.rows ==> down.cursor_y == s.rows - 1
            &&& many <= s.cursor_x ==> left.cursor_x == s.cursor_x - many
            &&& many > s.cursor_x ==> left.cursor_x == 0
            &&& up.cursor_x == s.cursor_x && down.cursor_x == s.cursor_x && left.cursor_y
                == s.cursor_y
            &&& up.grid == s.grid && down.grid == s.grid && left.grid == s.grid
            &&& up.history == s.history && down.history == s.history && left.history == s.history
            &&& is_set_up_the_same(s, up) && is_set_up_the_same(s, down) && is_set_up_the_same(
                s,
                left,
            )
        }),
{
}

/// The cursor moves right by the number that is asked for, or by one, and stops at the edge of the
/// screen. The text stays, unless the same number of characters was erased from a watched prompt
/// just before: then the row is cleared.
#[verifier::rlimit(40)]
pub proof fn moving_the_cursor_right(s: Screen, params: Seq<Seq<u16>>, n: int)
    requires
        s.wf(),
        s.cols > 0,
        asks_for(params, n),
    ensures
        ({
            let t = s.csi(params, Seq::empty(), false, 'C');
            let many = if n == 0 {
                1
            } else {
                n
            };
            let follows_erase = s.last_csi == Some(('X', many as usize, true));
            &&& s.cursor_x + many < s.cols ==> t.cursor_x == s.cursor_x + many
            &&& s.cursor_x + many >= s.cols ==> t.cursor_x == s.cols - 1
            &&& t.cursor_y == s.cursor_y
            &&& !follows_erase ==> t.grid == s.grid
            &&& follows_erase ==> {
                &&& forall|x: int|
                    0 <= x < s.cols ==> is_blank(s, #[trigger] t.grid[s.cursor_y].cells[x])
                &&& forall|y: int|
                    0 <= y < s.rows && y != s.cursor_y ==> #[trigger] t.grid[y] == s.grid[y]
            }
            &&& t.history == s.history && is_set_up_the_same(s, t)
        }),
{
}

/// Placing the cursor takes it to the row and column that are asked for, counted from one, or to the
/// nearest ones on the screen. A zero counts as one. The row it comes to continues no other, and no
/// text changes when the cursor does not go up.
#[verifier::rlimit(40)]
pub proof fn placing_the_cursor(s: Screen, params: Seq<Seq<u16>>, action: char, row: int, column: int)
    requires
        s.wf(),
        s.cols > 0,
        action == 'H' || action == 'f',
        asks_for(params, row),
        params.len() < 2 ==> column == 1,
        params.len() >= 2 ==> params[1].len() > 0 && params[1][0] == column,
    ensures
        ({
            let t = s.csi(params, Seq::empty(), false, action);
            &&& row == 0 ==> t.cursor_y == 0
            &&& 1 <= row <= s.rows ==> t.cursor_y == row - 1
            &&& row > s.rows ==> t.cursor_y == s.rows - 1
            &&& column == 0 ==> t.cursor_x == 0
            &&& 1 <= column <= s.cols ==> t.cursor_x == column - 1
            &&& column > s.cols ==> t.cursor_x == s.cols - 1
            &&& t.grid.len() == s.rows
            &&& !t.grid[t.cursor_y].is_wrapped
            &&& t.grid[t.cursor_y].cells == s.grid[t.cursor_y].cells
            &&& forall|y: int|
                0 <= y < t.cursor_y || (t.cursor_y < y < s.rows && t.cursor_y >= s.cursor_y)
                    ==> #[trigger] t.grid[y] == s.grid[y]
            &&& t.history == s.history && is_set_up_the_same(s, t)
        }),
{
}

/// When the cursor is placed further up, the rows that continue the row it comes to are cleared: all
/// marked ones that follow it without a break, and the row after them. Others keep their text.
#[verifier::rlimit(40)]
pub proof fn jumping_up_clears_a_run(
    s: Screen,
    params: Seq<Seq<u16>>,
    row: int,
    end: int,
)
    requires
        s.wf(),
        s.cols > 0,
        asks_for(params, row),
        1 <= row <= s.cursor_y,
        s.grid[row - 1].is_wrapped,
        row <= end < s.rows,
        !s.grid[end].is_wrapped,
        forall|y: int| row <= y < end ==> (#[trigger] s.grid[y]).is_wrapped,
    ensures
        ({
            let t = s.csi(params, Seq::empty(), false, 'H');
            &&& forall|y: int, x: int|
                row <= y <= end && 0 <= x < s.cols ==> is_blank(s, #[trigger] t.grid[y].cells[x])
            &&& forall|y: int| end < y < s.rows ==> #[trigger] t.grid[y] == s.grid[y]
        }),
{
    lemma_run_end(s, row, end);
}

proof fn lemma_run_end(s: Screen, y: int, end: int)
    requires
        0 <= y <= end < s.grid.len(),
        !s.grid[end].is_wrapped,
        forall|k: int| y <= k < end ==> (#[trigger] s.grid[k]).is_wrapped,
    ensures
        crate::terminal::screen::wrap_run_end(s.grid, y) == end + 1,
    decreases end - y,
{
    if y < end {
        lemma_run_end(s, y + 1, end);
    }
}

/// Where the row that the cursor jumps up to continues nothing, no text changes.
#[verifier::rlimit(40)]
pub proof fn jumping_up_keeps_other_text(s: Screen, params: Seq<Seq<u16>>, row: int)
    requires
        s.wf(),
        s.cols > 0,
        asks_for(params, row),
        1 <= row <= s.rows,
        !s.grid[row - 1].is_wrapped,
    ensures
        s.csi(params, Seq::empty(), false, 'H').grid == s.grid,
{
    assert(s.csi(params, Seq::empty(), false, 'H').grid =~= s.grid);
}

/// Rows of a region that scroll up by `n`: what stood `n` rows further down, and untouched lines
/// below it.
pub open spec fn moved_up(s: Screen, t: Screen, top: int, bottom: int, n: int) -> bool {
    &&& t.grid.len() == s.rows
    &&& forall|y: int|
        top <= y && y + n <= bottom ==> #[trigger] t.grid[y] == s.grid[y + n]
    &&& forall|y: int|
        top <= y <= bottom && y + n > bottom ==> is_untouched_line(#[trigger] t.grid[y], s.cols)
    &&& forall|y: int|
        0 <= y < top || bottom < y < s.rows ==> #[trigger] t.grid[y] == s.grid[y]
}

/// Rows of a region that scroll down by `n`: untouched lines at the top, and below them what stood
/// `n` rows further up.
pub open spec fn moved_down(s: Screen, t: Screen, top: int, bottom: int, n: int) -> bool {
    &&& t.grid.len() == s.rows
    &&& forall|y: int|
        top + n <= y <= bottom ==> #[trigger] t.grid[y] == s.grid[y - n]
    &&& forall|y: int|
        top <= y <= bottom && y < top + n ==> is_untouched_line(#[trigger] t.grid[y], s.cols)
    &&& forall|y: int|
        0 <= y < top || bottom < y < s.rows ==> #[trigger] t.grid[y] == s.grid[y]
}

/// The lines that leave the top of the screen when it scrolls by `n`.
pub open spec fn left_the_screen(s: Screen, gone: Seq<LineView>, n: int) -> bool {
    &&& gone.len() == n
    &&& forall|k: int| 0 <= k < n && k < s.rows ==> #[trigger] gone[k] == s.grid[k]
    &&& forall|k: int| s.rows <= k < n ==> is_untouched_line(#[trigger] gone[k], s.cols)
}

proof fn lemma_step_up(u: Screen, top: int, bottom: int)
    requires
        0 <= top < bottom < u.rows,
        u.grid.len() == u.rows,
    ensures
        ({
            let t = u.scrolled_up(top, bottom);
            &&& t.grid.len() == u.rows
            &&& forall|y: int| top <= y < bottom ==> #[trigger] t.grid[y] == u.grid[y + 1]
            &&& u.cols >= 0 ==> is_untouched_line(t.grid[bottom], u.cols)
            &&& forall|y: int|
                0 <= y < top || bottom < y < u.rows ==> #[trigger] t.grid[y] == u.grid[y]
            &&& t == (Screen { grid: t.grid, history: t.history, ..u })
            &&& top > 0 || bottom < u.rows - 1 ==> t.history == u.history
        }),
{
}

proof fn lemma_step_down(u: Screen, top: int, bottom: int)
    requires
        0 <= top < bottom < u.rows,
        u.grid.len() == u.rows,
    ensures
        ({
            let t = u.scrolled_down(top, bottom);
            &&& t.grid.len() == u.rows
            &&& forall|y: int| top < y <= bottom ==> #[trigger] t.grid[y] == u.grid[y - 1]
            &&& u.cols >= 0 ==> is_untouched_line(t.grid[top], u.cols)
            &&& forall|y: int|
                0 <= y < top || bottom < y < u.rows ==> #[trigger] t.grid[y] == u.grid[y]
            &&& t == (Screen { grid: t.grid, ..u })
        }),
{
}

#[verifier::rlimit(40)]
#[verifier::spinoff_prover]
proof fn lemma_up(s: Screen, top: int, bottom: int, n: int)
    requires
        s.wf(),
        0 <= top < bottom < s.rows,
        n >= 0,
    ensures
        ({
            let t = s.scrolled_up_by(top, bottom, n);
            &&& moved_up(s, t, top, bottom, n)
            &&& t == (Screen { grid: t.grid, history: t.history, ..s })
            &&& top > 0 || bottom < s.rows - 1 ==> t.history == s.history
        }),
    decreases n,
{
    if n > 0 {
        lemma_up(s, top, bottom, n - 1);
        let u = s.scrolled_up_by(top, bottom, n - 1);
        lemma_step_up(u, top, bottom);
    }
}

proof fn lemma_up_history(s: Screen, n: int)
    requires
        s.wf(),
        s.rows > 1,
        n >= 0,
        s.history.len() + n <= 10000,
    ensures
        ({
            let t = s.scrolled_up_by(0, s.rows - 1, n);
            &&& t.history.len() == s.history.len() + n
            &&& t.history.take(s.history.len() as int) == s.history
            &&& left_the_screen(s, t.history.skip(s.history.len() as int), n)
        }),
    decreases n,
{
    if n > 0 {
        lemma_up_history(s, n - 1);
        lemma_up(s, 0, s.rows - 1, n - 1);
        let u = s.scrolled_up_by(0, s.rows - 1, n - 1);
        let t = s.scrolled_up_by(0, s.rows - 1, n);
        let h = s.history.len() as int;
        assert(t.history == u.history.push(u.grid[0]));
        assert(t.history.take(h) =~= u.history.take(h));
        assert(t.history.skip(h) =~= u.history.skip(h).push(u.grid[0]));
    } else {
        assert(s.history.take(s.history.len() as int) =~= s.history);
    }
}

#[verifier::rlimit(40)]
#[verifier::spinoff_prover]
proof fn lemma_down(s: Screen, top: int, bottom: int, n: int)
    requires
        s.wf(),
        0 <= top < bottom < s.rows,
        n >= 0,
    ensures
        ({
            let t = s.scrolled_down_by(top, bottom, n);
            &&& moved_down(s, t, top, bottom, n)
            &&& t == (Screen { grid: t.grid, ..s })
        }),
    decreases n,
{
    if n > 0 {
        lemma_down(s, top, bottom, n - 1);
        let u = s.scrolled_down_by(top, bottom, n - 1);
        lemma_step_down(u, top, bottom);
    }
}

/// Scrolling up and down moves the rows of the region by the number that is asked for, or by one.
/// Where the region is the whole screen, the lines that leave at the top go to the end of the
/// history, as long as it has room. The cursor stays.
#[verifier::rlimit(40)]
pub proof fn scrolling_moves_the_region(s: Screen, params: Seq<Seq<u16>>, n: int)
    requires
        s.wf(),
        s.region.0 < s.region.1,
        asks_for(params, n),
    ensures
        ({
            let up = s.csi(params, Seq::empty(), false, 'S');
            let down = s.csi(params, Seq::empty(), false, 'T');
            let many = if n == 0 {
                1
            } else {
                n
            };
            let (top, bottom) = s.region;
            let h = s.history.len();
            &&& moved_up(s, up, top, bottom, many)
            &&& moved_down(s, down, top, bottom, many)
            &&& top > 0 || bottom < s.rows - 1 ==> up.history == s.history
            &&& top == 0 && bottom == s.rows - 1 && h + many <= 10000 ==> {
                &&& up.history.take(h as int) == s.history
                &&& left_the_screen(s, up.history.skip(h as int), many)
            }
            &&& down.history == s.history
            &&& up.cursor_x == s.cursor_x && up.cursor_y == s.cursor_y
            &&& down.cursor_x == s.cursor_x && down.cursor_y == s.cursor_y
            &&& is_set_up_the_same(s, up) && is_set_up_the_same(s, down)
        }),
{
    let many = if n == 0 {
        1
    } else {
        n
    };
    lemma_up(s, s.region.0, s.region.1, many);
    lemma_down(s, s.region.0, s.region.1, many);
    if s.region == (0int, s.rows - 1) && s.history.len() + many <= 10000 {
        lemma_up_history(s, many);
    }
}

/// Inserting lines opens untouched ones at the cursor's row, and moves those from there to the end
/// of the region down; deleting lines closes them up again and leaves untouched ones at the end of
/// the region. Above the cursor and below the region nothing changes.
#[verifier::rlimit(40)]
pub proof fn inserting_and_deleting_lines(s: Screen, params: Seq<Seq<u16>>, n: int)
    requires
        s.wf(),
        s.cursor_y < s.region.1,
        asks_for(params, n),
    ensures
        ({
            let inserted = s.csi(params, Seq::empty(), false, 'L');
            let deleted = s.csi(params, Seq::empty(), false, 'M');
            let many = if n == 0 {
                1
            } else {
                n
            };
            &&& moved_down(s, inserted, s.cursor_y, s.region.1, many)
            &&& moved_up(s, deleted, s.cursor_y, s.region.1, many)
            &&& inserted.history == s.history
            &&& s.cursor_y > 0 || s.region.1 < s.rows - 1 ==> deleted.history == s.history
            &&& inserted.cursor_x == s.cursor_x && inserted.cursor_y == s.cursor_y
            &&& deleted.cursor_x == s.cursor_x && deleted.cursor_y == s.cursor_y
            &&& is_set_up_the_same(s, inserted) && is_set_up_the_same(s, deleted)
        }),
{
    let many = if n == 0 {
        1
    } else {
        n
    };
    lemma_down(s, s.cursor_y, s.region.1, many);
    lemma_up(s, s.cursor_y, s.region.1, many);
}

/// A scrolling region goes from one row to another, both counted from one and the second at most the
/// last row. One that has fewer than two rows is ignored. The text and the cursor stay.
#[verifier::rlimit(40)]
pub proof fn setting_the_region(s: Screen, params: Seq<Seq<u16>>, first: int, last: int)
    requires
        s.wf(),
        asks_for(params, first),
        params.len() >= 2,
        params[1].len() > 0,
        params[1][0] == last,
    ensures
        ({
            let t = s.csi(params, Seq::empty(), false, 'r');
            &&& 1 <= first < last <= s.rows ==> t.region == (first - 1, last - 1)
            &&& first == 0 && 1 < last <= s.rows ==> t.region == (0int, last - 1)
            &&& last > s.rows && 1 <= first < s.rows ==> t.region == (first - 1, s.rows - 1)
            &&& first >= last && first >= 1 ==> t.region == s.region
            &&& shows_the_same(s, t)
            &&& t.pen == s.pen && t.responses == s.responses
        }),
{
}

/// Without parameters the region becomes the whole screen, where it has two rows.
#[verifier::rlimit(40)]
pub proof fn resetting_the_region(s: Screen)
    requires
        s.wf(),
        1 < s.rows <= 65535,
    ensures
        s.csi(Seq::empty(), Seq::empty(), false, 'r').region == (0int, s.rows - 1),
{
}

/// Asked where the cursor is, the terminal answers with its row and column, counted from one; asked
/// what it is, with the attributes of a terminal with advanced video. Nothing else changes.
#[verifier::rlimit(40)]
pub proof fn questions_are_answered(s: Screen, params: Seq<Seq<u16>>, other: Seq<Seq<u16>>, n: int)
    requires
        asks_for(params, 6),
        asks_for(other, n),
        n != 6,
    ensures
        ({
            let place = s.csi(params, Seq::empty(), false, 'n');
            let kind = s.csi(other, Seq::empty(), false, 'c');
            let row = crate::text::decimal((s.cursor_y + 1) as nat);
            let column = crate::text::decimal((s.cursor_x + 1) as nat);
            let answer = place.responses.last();
            &&& place.responses.len() == s.responses.len() + 1
            &&& place.responses.drop_last() == s.responses
            &&& answer.len() == row.len() + column.len() + 4
            &&& answer[0] == 0x1b && answer[1] == 0x5b
            &&& forall|i: int| 0 <= i < row.len() ==> #[trigger] answer[2 + i] == row[i] as u8
            &&& answer[(2 + row.len()) as int] == 0x3b
            &&& forall|i: int|
                0 <= i < column.len() ==> #[trigger] answer[3 + row.len() + i] == column[i] as u8
            &&& answer.last() == 0x52
            &&& kind.responses == s.responses.push(
                seq![0x1bu8, 0x5b, 0x3f, 0x31, 0x3b, 0x32, 0x63],
            )
            &&& s.csi(other, Seq::empty(), false, 'n').responses == s.responses
            &&& shows_the_same(s, place) && shows_the_same(s, kind)
            &&& place.pen == s.pen && kind.pen == s.pen
        }),
{
    let place = s.csi(params, Seq::empty(), false, 'n');
    assert(place.responses.drop_last() =~= s.responses);
    assert(kind_answer(s, other) =~= s.responses.push(
        seq![0x1bu8, 0x5b, 0x3f, 0x31, 0x3b, 0x32, 0x63],
    ));
}

spec fn kind_answer(s: Screen, params: Seq<Seq<u16>>) -> Seq<Seq<u8>> {
    s.csi(params, Seq::empty(), false, 'c').responses
}

/// A sequence with intermediates, one that was cut short, and one with a letter that means nothing
/// here change nothing that can be seen.
#[verifier::rlimit(40)]
pub proof fn other_sequences_do_nothing(
    s: Screen,
    params: Seq<Seq<u16>>,
    intermediates: Seq<u8>,
    ignore: bool,
    action: char,
)
    requires
        ignore || intermediates.len() > 0 || !seq![
            '@', 'X', 'P', 'A', 'B', 'C', 'D', 'H', 'f', 'm', 'J', 'K', 'L', 'M', 'S', 'T', 'r',
            'n', 'c',
        ].contains(action),
    ensures
        ({
            let t = s.csi(params, intermediates, ignore, action);
            shows_the_same(s, t) && is_set_up_the_same(s, t)
        }),
{
    let known = seq![
        '@', 'X', 'P', 'A', 'B', 'C', 'D', 'H', 'f', 'm', 'J', 'K', 'L', 'M', 'S', 'T', 'r', 'n',
        'c',
    ];
    if !ignore && intermediates.len() == 0 {
        assert(known[0] == '@' && known[1] == 'X' && known[2] == 'P' && known[3] == 'A' && known[4]
            == 'B' && known[5] == 'C' && known[6] == 'D' && known[7] == 'H' && known[8] == 'f'
            && known[9] == 'm' && known[10] == 'J' && known[11] == 'K' && known[12] == 'L'
            && known[13] == 'M' && known[14] == 'S' && known[15] == 'T' && known[16] == 'r'
            && known[17] == 'n' && known[18] == 'c');
    }
}

/// Whether a cell shows a character as the terminal's pen has it.
pub open spec fn is_written(s: Screen, cell: Cell, c: char) -> bool {
    &&& cell.ch == c
    &&& cell.fg == s.pen.fg
    &&& cell.bg == s.pen.bg
    &&& cell.bold == s.pen.bold
    &&& cell.italic == s.pen.italic
    &&& cell.underline == s.pen.underline
}

/// A character that its line has room for is written at the cursor in the pen's colours, and the
/// cursor moves past it. A wide one also takes the next cell, which holds no character of its own.
/// All other cells stay, but for the other halves of wide characters that it overwrites.
#[verifier::rlimit(40)]
pub proof fn printing_writes_at_the_cursor(s: Screen, c: char, w: int)
    requires
        s.wf(),
        0 <= w <= 2,
        s.cursor_x < s.cols,
        s.cursor_x + w <= s.cols,
    ensures
        ({
            let t = s.put(c, w);
            let before = s.grid[s.cursor_y].cells;
            let after = t.grid[s.cursor_y].cells;
            &&& t.grid.len() == s.rows
            &&& after.len() == s.cols
            &&& is_written(s, after[s.cursor_x], c)
            &&& w == 2 ==> is_written(s, after[s.cursor_x + 1], '\0')
            &&& forall|x: int|
                0 <= x < s.cols && (x < s.cursor_x - 1 || x > s.cursor_x + 1) ==> #[trigger] after[x]
                    == before[x]
            &&& s.cursor_x > 0 && before[s.cursor_x].ch != '\0' ==> after[s.cursor_x - 1]
                == before[s.cursor_x - 1]
            &&& s.cursor_x > 0 && before[s.cursor_x].ch == '\0' ==> after[s.cursor_x - 1] == (Cell {
                ch: ' ',
                ..before[s.cursor_x - 1]
            })
            &&& w < 2 && s.cursor_x + 1 < s.cols && before[s.cursor_x + 1].ch != '\0'
                ==> after[s.cursor_x + 1] == before[s.cursor_x + 1]
            &&& w < 2 && s.cursor_x + 1 < s.cols && before[s.cursor_x + 1].ch == '\0'
                ==> after[s.cursor_x + 1] == (Cell { ch: ' ', ..before[s.cursor_x + 1] })
            &&& forall|y: int|
                0 <= y < s.rows && y != s.cursor_y ==> #[trigger] t.grid[y] == s.grid[y]
            &&& t.grid[s.cursor_y].is_wrapped == s.grid[s.cursor_y].is_wrapped
            &&& t.cursor_x == s.cursor_x + w && t.cursor_y == s.cursor_y
            &&& t.history == s.history && is_set_up_the_same(s, t)
        }),
{
}

/// A character that its line has no room for starts the next line, which is marked as a continuation
/// and holds nothing else. The line that was full stays.
#[verifier::rlimit(40)]
pub proof fn printing_wraps(s: Screen, c: char, w: int)
    requires
        s.wf(),
        1 <= w <= 2,
        w <= s.cols,
        s.cursor_x + w > s.cols,
        s.cursor_y < s.region.1,
    ensures
        ({
            let t = s.put(c, w);
            let line = t.grid[s.cursor_y + 1];
            &&& t.grid.len() == s.rows
            &&& line.is_wrapped
            &&& line.cells.len() == s.cols
            &&& is_written(s, line.cells[0], c)
            &&& w == 2 ==> is_written(s, line.cells[1], '\0')
            &&& forall|x: int| w <= x < s.cols ==> is_blank(s, #[trigger] line.cells[x])
            &&& forall|y: int|
                0 <= y < s.rows && y != s.cursor_y + 1 ==> #[trigger] t.grid[y] == s.grid[y]
            &&& t.cursor_x == w && t.cursor_y == s.cursor_y + 1
            &&& t.history == s.history && is_set_up_the_same(s, t)
        }),
{
}

/// On the last row of the region, such a character scrolls the region by one first, and starts its
/// last row. Of a region that is the whole screen the top line goes to the history.
#[verifier::rlimit(40)]
pub proof fn printing_wraps_and_scrolls(s: Screen, c: char, w: int)
    requires
        s.wf(),
        1 <= w <= 2,
        w <= s.cols,
        s.cursor_x + w > s.cols,
        s.region.0 < s.region.1,
        s.cursor_y == s.region.1,
    ensures
        ({
            let t = s.put(c, w);
            let (top, bottom) = s.region;
            let line = t.grid[bottom];
            &&& t.grid.len() == s.rows
            &&& line.is_wrapped
            &&& line.cells.len() == s.cols
            &&& is_written(s, line.cells[0], c)
            &&& w == 2 ==> is_written(s, line.cells[1], '\0')
            &&& forall|x: int| w <= x < s.cols ==> is_blank(s, #[trigger] line.cells[x])
            &&& forall|y: int| top <= y < bottom ==> #[trigger] t.grid[y] == s.grid[y + 1]
            &&& forall|y: int|
                0 <= y < top || bottom < y < s.rows ==> #[trigger] t.grid[y] == s.grid[y]
            &&& t.cursor_x == w && t.cursor_y == bottom
            &&& top == 0 && bottom == s.rows - 1 && s.history.len() < 10000 ==> t.history
                == s.history.push(s.grid[0])
            &&& top > 0 || bottom < s.rows - 1 ==> t.history == s.history
            &&& is_set_up_the_same(s, t)
        }),
{
    lemma_up(s, s.region.0, s.region.1, 1);
    reveal_with_fuel(Screen::scrolled_up_by, 2);
    let home = Screen { cursor_x: 0, ..s };
    assert(home.scrolled_up(s.region.0, s.region.1).grid == s.scrolled_up(
        s.region.0,
        s.region.1,
    ).grid);
}

/// A line feed goes one row down in the same column; on the last row of the region it scrolls the
/// region by one instead. The row that it comes to continues no other.
#[verifier::rlimit(40)]
pub proof fn line_feeds(s: Screen)
    requires
        s.wf(),
        s.region.0 < s.region.1,
    ensures
        ({
            let t = s.execute(10);
            let (top, bottom) = s.region;
            &&& t.cursor_x == s.cursor_x
            &&& t.grid.len() == s.rows
            &&& !t.grid[t.cursor_y].is_wrapped
            &&& s.cursor_y != bottom ==> {
                &&& s.cursor_y + 1 < s.rows ==> t.cursor_y == s.cursor_y + 1
                &&& s.cursor_y + 1 == s.rows ==> t.cursor_y == s.cursor_y
                &&& forall|y: int| 0 <= y < s.rows ==> (#[trigger] t.grid[y]).cells
                    == s.grid[y].cells
                &&& forall|y: int|
                    0 <= y < s.rows && y != t.cursor_y ==> #[trigger] t.grid[y] == s.grid[y]
                &&& t.history == s.history
            }
            &&& s.cursor_y == bottom ==> {
                &&& t.cursor_y == s.cursor_y
                &&& moved_up(s, t, top, bottom, 1)
                &&& top == 0 && bottom == s.rows - 1 && s.history.len() < 10000 ==> t.history
                    == s.history.push(s.grid[0])
            }
            &&& is_set_up_the_same(s, t)
        }),
{
    lemma_up(s, s.region.0, s.region.1, 1);
    reveal_with_fuel(Screen::scrolled_up_by, 2);
}

/// A carriage return goes to the start of the row, and a backspace one column left. At the start of a
/// row that continues another, a backspace goes to the end of that one. The text stays. Other codes
/// than these, line feeds and tabulators do nothing.
#[verifier::rlimit(40)]
pub proof fn going_back(s: Screen, other: u8)
    requires
        s.wf(),
        other != 8 && other != 9 && other != 10 && other != 13,
    ensures
        ({
            let home = s.execute(13);
            let back = s.execute(8);
            &&& home.cursor_x == 0 && home.cursor_y == s.cursor_y
            &&& s.cursor_x > 0 ==> back.cursor_x == s.cursor_x - 1 && back.cursor_y == s.cursor_y
            &&& s.cursor_x == 0 && s.cursor_y > 0 && s.grid[s.cursor_y].is_wrapped
                ==> back.cursor_x == s.cols - 1 && back.cursor_y == s.cursor_y - 1
            &&& s.cursor_x == 0 && (s.cursor_y == 0 || !s.grid[s.cursor_y].is_wrapped)
                ==> back.cursor_x == 0 && back.cursor_y == s.cursor_y
            &&& home.grid == s.grid && back.grid == s.grid
            &&& home.history == s.history && back.history == s.history
            &&& is_set_up_the_same(s, home) && is_set_up_the_same(s, back)
            &&& s.execute(other) == s
        }),
{
}

#[verifier::rlimit(40)]
proof fn lemma_spaces(s: Screen, n: int)
    requires
        s.wf(),
        0 <= n,
        s.cursor_x + n <= s.cols,
    ensures
        ({
            let t = s.spaces(n);
            &&& t.wf()
            &&& t.cols == s.cols && t.rows == s.rows
            &&& t.cursor_x == s.cursor_x + n && t.cursor_y == s.cursor_y
            &&& forall|x: int|
                s.cursor_x <= x < s.cursor_x + n ==> is_written(
                    s,
                    #[trigger] t.grid[s.cursor_y].cells[x],
                    ' ',
                )
            &&& forall|x: int|
                0 <= x < s.cursor_x - 1 || s.cursor_x + n < x < s.cols
                    ==> #[trigger] t.grid[s.cursor_y].cells[x] == s.grid[s.cursor_y].cells[x]
            &&& forall|y: int|
                0 <= y < s.rows && y != s.cursor_y ==> #[trigger] t.grid[y] == s.grid[y]
            &&& t.history == s.history && is_set_up_the_same(s, t)
        }),
    decreases n,
{
    if n > 0 {
        lemma_spaces(s, n - 1);
        let u = s.spaces(n - 1);
        printing_writes_at_the_cursor(u, ' ', 1);
        let t = u.put(' ', 1);
        let before = u.grid[s.cursor_y].cells;
        if n > 1 {
            assert(before[s.cursor_x + n - 2].ch == ' ');
            assert(u.cursor_x - 1 == s.cursor_x + n - 2);
            assert(is_written(s, before[u.cursor_x - 1], ' '));
            assert(t.grid[s.cursor_y].cells[u.cursor_x - 1].ch == ' ');
            assert(is_written(s, t.grid[s.cursor_y].cells[u.cursor_x - 1], ' ')) by {
                if before[u.cursor_x].ch != '\0' {
                    assert(t.grid[s.cursor_y].cells[u.cursor_x - 1] == before[u.cursor_x - 1]);
                }
            }
        }
        assert forall|x: int| s.cursor_x <= x < s.cursor_x + n implies is_written(
            s,
            #[trigger] t.grid[s.cursor_y].cells[x],
            ' ',
        ) by {
            if x < u.cursor_x - 1 {
                assert(t.grid[s.cursor_y].cells[x] == before[x]);
            }
        }
    }
}

/// A tabulator goes to the next column that is a multiple of eight, and leaves spaces on the way,
/// where the line has room for them.
#[verifier::rlimit(40)]
pub proof fn tabulators(s: Screen)
    requires
        s.wf(),
        (s.cursor_x / 8 + 1) * 8 <= s.cols,
    ensures
        ({
            let t = s.execute(9);
            &&& t.cursor_x % 8 == 0
            &&& s.cursor_x < t.cursor_x <= s.cursor_x + 8
            &&& t.cursor_y == s.cursor_y
            &&& forall|x: int|
                s.cursor_x <= x < t.cursor_x ==> is_written(
                    s,
                    #[trigger] t.grid[s.cursor_y].cells[x],
                    ' ',
                )
            &&& forall|x: int|
                0 <= x < s.cursor_x - 1 || t.cursor_x < x < s.cols
                    ==> #[trigger] t.grid[s.cursor_y].cells[x] == s.grid[s.cursor_y].cells[x]
            &&& forall|y: int|
                0 <= y < s.rows && y != s.cursor_y ==> #[trigger] t.grid[y] == s.grid[y]
            &&& t.history == s.history && is_set_up_the_same(s, t)
        }),
{
    lemma_spaces(s, 8 - s.cursor_x % 8);
}

/// A terminal whose cursor is on a column of the screen carries out whatever it is asked for.
#[verifier::rlimit(40)]
pub proof fn nothing_is_refused_on_the_screen(s: Screen, action: Action)
    requires
        s.wf(),
        s.cursor_x < s.cols,
        action matches Action::Csi { params, .. } ==> forall|i: int|
            0 <= i < params.len() ==> (#[trigger] params[i]).len() > 0,
    ensures
        s.accepts(action),
{
}

/// Text is printed with the columns of its characters, where a control character counts as one, and
/// codes and sequences are carried out. Actions are carried out in their order.
#[verifier::rlimit(40)]
pub proof fn actions_are_carried_out_in_order(
    s: Screen,
    c: char,
    byte: u8,
    params: Seq<Seq<u16>>,
    action: char,
    first: Seq<Action>,
    then: Seq<Action>,
)
    ensures
        unicode_width(c) matches Some(w) ==> s.perform(Action::Print(c)) == s.put(c, w as int),
        unicode_width(c) is None ==> s.perform(Action::Print(c)) == s.put(c, 1),
        s.perform(Action::Execute(byte)) == s.execute(byte),
        s.perform(
            Action::Csi { params, intermediates: Seq::empty(), ignore: false, action },
        ) == s.csi(params, Seq::empty(), false, action),
        s.run(Seq::empty()) == s,
        s.accepts_all(first) ==> s.run(first + then) == s.run(first).run(then),
        s.accepts_all(first + then) == (s.accepts_all(first) && s.run(first).accepts_all(then)),
    decreases first.len(),
{
    if first.len() == 0 {
        assert(first + then =~= then);
    } else {
        let t = s.perform(first[0]);
        assert((first + then)[0] == first[0]);
        assert((first + then).drop_first() =~= first.drop_first() + then);
        actions_are_carried_out_in_order(t, c, byte, params, action, first.drop_first(), then);
    }
}

/// Below the scrolling region a character that its line has no room for goes on at the start of the
/// next row, over what stands there, or of the same row where it is the last. Nothing scrolls.
#[verifier::rlimit(40)]
pub proof fn printing_below_the_region(s: Screen, c: char, w: int, y: int)
    requires
        s.wf(),
        1 <= w <= 2,
        w <= s.cols,
        s.cursor_x + w > s.cols,
        s.cursor_y > s.region.1,
        s.cursor_y + 1 < s.rows ==> y == s.cursor_y + 1,
        s.cursor_y + 1 == s.rows ==> y == s.cursor_y,
    ensures
        ({
            let t = s.put(c, w);
            &&& t.cursor_x == w && t.cursor_y == y
            &&& is_written(s, t.grid[y].cells[0], c)
            &&& forall|x: int| w < x < s.cols ==> #[trigger] t.grid[y].cells[x] == s.grid[y].cells[x]
            &&& t.grid[y].is_wrapped == s.grid[y].is_wrapped
            &&& forall|k: int| 0 <= k < s.rows && k != y ==> #[trigger] t.grid[k] == s.grid[k]
            &&& t.history == s.history && is_set_up_the_same(s, t)
        }),
{
}

/// Below the scrolling region no lines are inserted or deleted, and a line feed there goes down
/// without scrolling.
#[verifier::rlimit(40)]
pub proof fn lines_below_the_region_stay(s: Screen, params: Seq<Seq<u16>>, n: int)
    requires
        s.wf(),
        s.cursor_y > s.region.1,
        asks_for(params, n),
    ensures
        shows_the_same(s, s.csi(params, Seq::empty(), false, 'L')),
        shows_the_same(s, s.csi(params, Seq::empty(), false, 'M')),
        s.execute(10).history == s.history,
{
    let many = if n == 0 {
        1
    } else {
        n
    };
    lemma_still(s, s.cursor_y, s.region.1, many);
}

proof fn lemma_still(s: Screen, top: int, bottom: int, n: int)
    requires
        top > bottom,
        top > 0,
    ensures
        s.scrolled_up_by(top, bottom, n) == s,
        s.scrolled_down_by(top, bottom, n) == s,
    decreases n,
{
    if n > 0 {
        lemma_still(s, top, bottom, n - 1);
    }
}

/// A full history of ten thousand lines loses its oldest line for each that comes.
#[verifier::rlimit(40)]
pub proof fn the_history_is_bounded(s: Screen)
    requires
        s.wf(),
        s.region == (0int, s.rows - 1),
        s.cursor_y == s.rows - 1,
        s.history.len() == 10000,
    ensures
        s.execute(10).history == s.history.drop_first().push(s.grid[0]),
{
    assert(s.execute(10).history =~= s.history.drop_first().push(s.grid[0]));
}

/// A region whose last row is not given goes to the end of the screen.
#[verifier::rlimit(40)]
pub proof fn regions_go_to_the_end(s: Screen, params: Seq<Seq<u16>>, first: int)
    requires
        s.wf(),
        s.rows <= 65535,
        params.len() == 1,
        asks_for(params, first),
        1 <= first < s.rows,
    ensures
        s.csi(params, Seq::empty(), false, 'r').region == (first - 1, s.rows - 1),
{
}

} // verus!
