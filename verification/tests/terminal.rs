use kterm::terminal::cell::{ansi_color, ansi_color_bright, color_from_256, Color, Selection};
use kterm::terminal::csi::parse_extended_color;
use kterm::terminal::emulator::TerminalEmulator;
use kterm::terminal::select::Backdrop;
use kterm::terminal::width::char_columns;

fn row(emu: &TerminalEmulator, y: usize) -> String {
    emu.grid[y].cells.iter().map(|c| c.ch).collect::<String>()
}

fn fed(rows: usize, cols: usize, bytes: &[u8]) -> TerminalEmulator {
    let mut emu = TerminalEmulator::new(rows, cols);
    assert!(emu.process_bytes(bytes));
    emu
}

#[test]
fn fresh_terminal_is_blank() {
    let emu = TerminalEmulator::new(2, 3);
    assert_eq!(emu.rows, 2);
    assert_eq!(emu.cols, 3);
    assert_eq!(row(&emu, 0), "   ");
    assert_eq!(emu.scrolling_region, (0, 1));
    assert_eq!(emu.current_fg, Color::white());
    assert_eq!(emu.current_bg, Color::black());
}

#[test]
fn text_is_printed_at_the_cursor() {
    let emu = fed(2, 5, b"ab\r\ncd");
    assert_eq!(row(&emu, 0), "ab   ");
    assert_eq!(row(&emu, 1), "cd   ");
    assert_eq!((emu.cursor_x, emu.cursor_y), (2, 1));
}

#[test]
fn long_lines_wrap_and_are_marked() {
    let emu = fed(3, 4, b"abcdef");
    assert_eq!(row(&emu, 0), "abcd");
    assert_eq!(row(&emu, 1), "ef  ");
    assert!(!emu.grid[0].is_wrapped);
    assert!(emu.grid[1].is_wrapped);
}

#[test]
fn line_feed_on_the_last_row_scrolls_into_history() {
    let emu = fed(2, 3, b"aaa\r\nbbb\r\nccc");
    assert_eq!(emu.history.len(), 1);
    assert_eq!(emu.history[0].cells[0].ch, 'a');
    assert_eq!(row(&emu, 0), "bbb");
    assert_eq!(row(&emu, 1), "ccc");
}

#[test]
fn backspace_goes_back_over_a_wrap() {
    let mut emu = fed(2, 3, b"abcd");
    assert_eq!((emu.cursor_x, emu.cursor_y), (1, 1));
    assert!(emu.process_bytes(b"\x08\x08"));
    assert_eq!((emu.cursor_x, emu.cursor_y), (2, 0));
}

#[test]
fn tab_prints_spaces_up_to_the_next_stop() {
    let emu = fed(1, 20, b"ab\tc");
    assert_eq!(row(&emu, 0), "ab      c           ");
}

#[test]
fn wide_characters_take_two_cells() {
    let emu = fed(1, 4, "한a".as_bytes());
    assert_eq!(emu.grid[0].cells[0].ch, '한');
    assert_eq!(emu.grid[0].cells[1].ch, '\0');
    assert_eq!(emu.grid[0].cells[2].ch, 'a');
}

#[test]
fn columns_of_characters() {
    assert_eq!(char_columns('a'), 1);
    assert_eq!(char_columns('한'), 2);
    assert_eq!(char_columns('\u{301}'), 0);
    assert_eq!(char_columns('\u{7}'), 1);
}

#[test]
fn cursor_moves() {
    let mut emu = fed(5, 10, b"\x1b[3;4H");
    assert_eq!((emu.cursor_x, emu.cursor_y), (3, 2));
    assert!(emu.process_bytes(b"\x1b[A\x1b[2C"));
    assert_eq!((emu.cursor_x, emu.cursor_y), (5, 1));
    assert!(emu.process_bytes(b"\x1b[99;99H"));
    assert_eq!((emu.cursor_x, emu.cursor_y), (9, 4));
}

#[test]
fn erase_to_the_end_of_the_line() {
    let emu = fed(1, 5, b"abcde\x1b[1;3H\x1b[K");
    assert_eq!(row(&emu, 0), "ab   ");
}

#[test]
fn erasing_the_screen_leaves_blanks() {
    let emu = fed(2, 3, b"abcdef\x1b[2J");
    assert_eq!(row(&emu, 0), "   ");
    assert_eq!(row(&emu, 1), "   ");
    assert_eq!((emu.cursor_x, emu.cursor_y), (0, 0));
}

#[test]
fn insert_and_delete_characters() {
    let mut emu = fed(1, 5, b"abcde\x1b[1;2H\x1b[2@");
    assert_eq!(row(&emu, 0), "a  bc");
    assert!(emu.process_bytes(b"\x1b[2P"));
    assert_eq!(row(&emu, 0), "abc  ");
}

#[test]
fn rendition_changes_the_pen_and_a_reset_forgets_it() {
    let mut emu = fed(1, 5, b"\x1b[1;31;44mx");
    let cell = emu.grid[0].cells[0];
    assert!(cell.bold);
    assert_eq!(cell.fg, ansi_color(1));
    assert_eq!(cell.bg, ansi_color(4));
    assert!(emu.process_bytes(b"\x1b[0m"));
    assert!(!emu.current_bold);
    assert_eq!(emu.current_fg, Color::white());
    assert_eq!(emu.current_bg, Color::black());
}

#[test]
fn extended_colors() {
    let params = vec![vec![38], vec![2], vec![10], vec![20], vec![30]];
    let (color, _) = parse_extended_color(&params, 1);
    assert_eq!(color, Some(Color::from_rgb8(10, 20, 30)));
    let emu = fed(1, 2, b"\x1b[38;5;196mx");
    assert_eq!(emu.grid[0].cells[0].fg, color_from_256(196));
    assert_eq!(color_from_256(196), Color::from_rgb8(255, 0, 0));
}

#[test]
fn palettes() {
    assert_eq!(ansi_color(0), Color::from_rgb8(0, 0, 0));
    assert_ne!(ansi_color(1), ansi_color_bright(1));
    assert_eq!(color_from_256(16), Color::from_rgb8(0, 0, 0));
    assert_eq!(color_from_256(231), Color::from_rgb8(255, 255, 255));
    assert_eq!(color_from_256(232), Color::from_rgb8(8, 8, 8));
}

#[test]
fn scrolling_region_keeps_the_rest() {
    let emu = fed(4, 2, b"aa\r\nbb\r\ncc\r\ndd\x1b[2;3r\x1b[3;1H\n");
    assert_eq!(row(&emu, 0), "aa");
    assert_eq!(row(&emu, 1), "cc");
    assert_eq!(row(&emu, 2), "  ");
    assert_eq!(row(&emu, 3), "dd");
}

#[test]
fn cursor_position_is_reported() {
    let emu = fed(5, 10, b"\x1b[2;3H\x1b[6n");
    assert_eq!(emu.pending_responses, vec![b"\x1b[2;3R".to_vec()]);
}

#[test]
fn input_in_pieces_is_input_as_a_whole() {
    let mut emu = TerminalEmulator::new(2, 5);
    assert!(emu.process_bytes(b"\x1b["));
    assert!(emu.process_bytes(b"2;2"));
    assert!(emu.process_bytes(b"Hx"));
    assert_eq!(emu.grid[1].cells[1].ch, 'x');
}

#[test]
fn editing_past_the_last_column_is_refused() {
    let mut emu = fed(1, 3, b"abc");
    assert_eq!(emu.cursor_x, 3);
    assert!(!emu.process_bytes(b"\x1b[P"));
}

#[test]
fn resize_reflows_the_text() {
    let mut emu = fed(3, 6, b"abcdef");
    assert!(emu.try_resize(4, 4));
    assert_eq!(row(&emu, 0), "abcd");
    assert_eq!(row(&emu, 1), "ef  ");
    assert!(emu.grid[1].is_wrapped);
    assert!(emu.try_resize(3, 6));
    assert_eq!(row(&emu, 0), "abcdef");
}

#[test]
fn resize_moves_what_does_not_fit_to_the_history() {
    let mut emu = fed(3, 3, b"aaa\r\nbbb\r\nccc");
    assert!(emu.try_resize(2, 3));
    assert_eq!(emu.history.len(), 1);
    assert_eq!(row(&emu, 0), "bbb");
    assert_eq!(row(&emu, 1), "ccc");
}

#[test]
fn impossible_sizes_are_refused() {
    let mut emu = fed(2, 4, "한".as_bytes());
    assert!(!emu.try_resize(0, 4));
    assert!(!emu.try_resize(2, 0));
    assert!(!emu.try_resize(2, 1));
    assert!(emu.try_resize(2, 4));
    let mut narrow = fed(2, 4, b"ab");
    assert!(narrow.try_resize(2, 1));
}

#[test]
fn wide_text_keeps_its_order() {
    let mut emu = fed(2, 8, "한글x".as_bytes());
    assert!(emu.try_resize(4, 3));
    let all: String = emu
        .history
        .iter()
        .chain(emu.grid.iter())
        .flat_map(|l| l.cells.iter())
        .map(|c| c.ch)
        .filter(|c| *c != ' ' && *c != '\0')
        .collect();
    assert_eq!(all, "한글x");
}

#[test]
fn selected_text_in_either_order() {
    let mut emu = fed(2, 5, b"hello\r\nworld");
    emu.selection = Some(Selection { start: (1, 0), end: (2, 1) });
    let forward = emu.get_selected_text();
    emu.selection = Some(Selection { start: (2, 1), end: (1, 0) });
    assert_eq!(emu.get_selected_text(), forward);
    assert!(forward.starts_with("ello"));
    assert!(forward.ends_with("wor"));
    assert!(emu.has_selection());
}

#[test]
fn selection_holds_what_lies_between() {
    let sel = Selection { start: (3, 1), end: (1, 0) };
    assert!(sel.contains(1, 0));
    assert!(sel.contains(9, 0));
    assert!(sel.contains(3, 1));
    assert!(!sel.contains(4, 1));
    assert!(!sel.contains(0, 0));
}

#[test]
fn painting_shows_selection_and_cells() {
    let mut emu = fed(1, 3, b"\x1b[42ma");
    assert_eq!(emu.paint_at(0, 0).unwrap().backdrop, Backdrop::Filled(ansi_color(2)));
    assert_eq!(emu.paint_at(1, 0).unwrap().backdrop, Backdrop::Plain);
    emu.selection = Some(Selection { start: (0, 0), end: (0, 0) });
    assert_eq!(emu.paint_at(0, 0).unwrap().backdrop, Backdrop::Selected);
    assert!(emu.paint_at(3, 0).is_none());
}

#[test]
fn view_scrolls_back_no_further_than_the_history() {
    let mut emu = fed(2, 3, b"a\r\nb\r\nc\r\nd");
    assert_eq!(emu.first_shown(), 2);
    emu.display_offset = 1;
    assert_eq!(emu.first_shown(), 1);
    assert!(!emu.shows_cursor());
    emu.display_offset = 9;
    assert_eq!(emu.first_shown(), 0);
}

#[test]
fn another_size_is_wanted_only_where_it_differs() {
    let emu = TerminalEmulator::new(2, 3);
    assert!(!emu.wants_resize(2, 3));
    assert!(!emu.wants_resize(0, 3));
    assert!(emu.wants_resize(3, 3));
}
