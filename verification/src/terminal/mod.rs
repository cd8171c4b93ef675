//! The terminal emulator: cells, the screen model, the escape-sequence interpreter,
//! reflow on resize, and text selection.
pub mod cell;
pub mod csi;
pub mod edit_laws;
pub mod emulator;
pub mod laws;
pub mod pen_laws;
pub mod process;
pub mod reflow;
pub mod resize_laws;
pub mod screen;
pub mod select;
pub mod select_laws;
pub mod vt;
pub mod width;

pub use crate::terminal::emulator::TerminalEmulator;
pub use crate::terminal::cell::{
    ansi_color, ansi_color_bright, color_from_256, Cell, Color, Line, Selection,
};
