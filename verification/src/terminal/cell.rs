//! Cells, lines, colours and selections: the plain data that a screen is made of.
use vstd::prelude::*;

verus! {

/// A colour with eight bits per channel.
#[derive(Clone, Copy, Debug, PartialEq, Eq, Structural)]
pub struct Color {
    pub r: u8,
    pub g: u8,
    pub b: u8,
}

impl Color {
    /// The default foreground.
    pub fn white() -> (c: Color)
        ensures
            c == (Color { r: 255, g: 255, b: 255 }),
    {
        Color { r: 255, g: 255, b: 255 }
    }

    /// The default background.
    pub fn black() -> (c: Color)
        ensures
            c == (Color { r: 0, g: 0, b: 0 }),
    {
        Color { r: 0, g: 0, b: 0 }
    }

    /// The colour with the given channels.
    pub fn from_rgb8(r: u8, g: u8, b: u8) -> (c: Color)
        ensures
            c == (Color { r, g, b }),
    {
        Color { r, g, b }
    }
}

/// One character position of the screen. The second half of a wide character holds `'\0'`.
#[derive(Clone, Copy, Debug, PartialEq, Eq, Structural)]
pub struct Cell {
    pub ch: char,
    pub fg: Color,
    pub bg: Color,
    pub bold: bool,
    pub italic: bool,
    pub underline: bool,
}

/// The cell that an untouched screen is filled with: a white-on-black space.
pub open spec fn default_cell() -> Cell {
    Cell {
        ch: ' ',
        fg: Color { r: 255, g: 255, b: 255 },
        bg: Color { r: 0, g: 0, b: 0 },
        bold: false,
        italic: false,
        underline: false,
    }
}

impl Default for Cell {
    fn default() -> (c: Self)
        ensures
            c == default_cell(),
    {
        Cell {
            ch: ' ',
            fg: Color::white(),
            bg: Color::black(),
            bold: false,
            italic: false,
            underline: false,
        }
    }
}

/// A row of cells.
#[derive(Clone, Debug)]
pub struct Line {
    pub cells: Vec<Cell>,
    /// Whether this row continues the previous one because of an automatic line wrap.
    pub is_wrapped: bool,
}

/// A row as a mathematical value.
#[verifier::ext_equal]
pub struct LineView {
    pub cells: Seq<Cell>,
    pub is_wrapped: bool,
}

impl View for Line {
    type V = LineView;

    open spec fn view(&self) -> LineView {
        LineView { cells: self.cells@, is_wrapped: self.is_wrapped }
    }
}

/// An untouched row of `cols` cells.
pub open spec fn blank_line(cols: int) -> LineView {
    LineView { cells: Seq::new(cols as nat, |i: int| default_cell()), is_wrapped: false }
}

impl Line {
    /// An untouched row.
    pub fn new(cols: usize) -> (line: Line)
        ensures
            line@ == blank_line(cols as int),
    {
        let line = Line { cells: vec![Cell::default(); cols], is_wrapped: false };
        assert(line@.cells =~= blank_line(cols as int).cells);
        line
    }
}

/// A selected stretch of text between two corners, each a (column, row) pair. Rows count from
/// the oldest line of the history.
#[derive(Clone, Copy, Debug, PartialEq, Eq)]
pub struct Selection {
    pub start: (usize, usize),
    pub end: (usize, usize),
}

/// The eight standard colours.
pub open spec fn ansi_palette(index: int) -> Color {
    if index == 0 {
        Color { r: 0, g: 0, b: 0 }
    } else if index == 1 {
        Color { r: 205, g: 0, b: 0 }
    } else if index == 2 {
        Color { r: 0, g: 205, b: 0 }
    } else if index == 3 {
        Color { r: 205, g: 205, b: 0 }
    } else if index == 4 {
        Color { r: 50, g: 50, b: 255 }
    } else if index == 5 {
        Color { r: 205, g: 0, b: 205 }
    } else if index == 6 {
        Color { r: 0, g: 205, b: 205 }
    } else {
        Color { r: 255, g: 255, b: 255 }
    }
}

/// The eight bright colours.
pub open spec fn bright_palette(index: int) -> Color {
    if index == 0 {
        Color { r: 127, g: 127, b: 127 }
    } else if index == 1 {
        Color { r: 255, g: 0, b: 0 }
    } else if index == 2 {
        Color { r: 0, g: 255, b: 0 }
    } else if index == 3 {
        Color { r: 255, g: 255, b: 0 }
    } else if index == 4 {
        Color { r: 92, g: 92, b: 255 }
    } else if index == 5 {
        Color { r: 255, g: 0, b: 255 }
    } else if index == 6 {
        Color { r: 0, g: 255, b: 255 }
    } else {
        Color { r: 255, g: 255, b: 255 }
    }
}

/// The palette of 256 colours: the standard and bright ones, a colour cube with six steps of 51
/// along each channel (red outermost), and a ramp of 24 greys in steps of ten.
pub open spec fn palette_256(index: u8) -> Color {
    if index < 8 {
        ansi_palette(index as int)
    } else if index < 16 {
        bright_palette(index - 8)
    } else if index < 232 {
        let k = index - 16;
        Color {
            r: (51 * (k / 36)) as u8,
            g: (51 * ((k / 6) % 6)) as u8,
            b: (51 * (k % 6)) as u8,
        }
    } else {
        let grey = (10 * (index - 232) + 8) as u8;
        Color { r: grey, g: grey, b: grey }
    }
}

/// A standard colour by number; white for a number above seven.
pub fn ansi_color(index: u8) -> (c: Color)
    ensures
        c == ansi_palette(index as int),
{
    match index {
        0 => Color::black(),
        1 => Color::from_rgb8(205, 0, 0),
        2 => Color::from_rgb8(0, 205, 0),
        3 => Color::from_rgb8(205, 205, 0),
        4 => Color::from_rgb8(50, 50, 255),
        5 => Color::from_rgb8(205, 0, 205),
        6 => Color::from_rgb8(0, 205, 205),
        _ => Color::white(),
    }
}

/// A bright colour by number; white for a number above seven.
pub fn ansi_color_bright(index: u8) -> (c: Color)
    ensures
        c == bright_palette(index as int),
{
    match index {
        0 => Color::from_rgb8(127, 127, 127),
        1 => Color::from_rgb8(255, 0, 0),
        2 => Color::from_rgb8(0, 255, 0),
        3 => Color::from_rgb8(255, 255, 0),
        4 => Color::from_rgb8(92, 92, 255),
        5 => Color::from_rgb8(255, 0, 255),
        6 => Color::from_rgb8(0, 255, 255),
        _ => Color::white(),
    }
}

/// A colour of the 256-colour palette.
pub fn color_from_256(index: u8) -> (c: Color)
    ensures
        c == palette_256(index),
{
    if index < 8 {
        ansi_color(index)
    } else if index < 16 {
        ansi_color_bright(index - 8)
    } else if index < 232 {
        let k: u8 = index - 16;
        let r: u8 = (k / 36) * 51;
        let g: u8 = ((k / 6) % 6) * 51;
        let b: u8 = (k % 6) * 51;
        Color::from_rgb8(r, g, b)
    } else {
        let grey: u8 = (index - 232) * 10 + 8;
        Color::from_rgb8(grey, grey, grey)
    }
}

} // verus!
