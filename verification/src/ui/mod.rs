//! What the windows show, apart from how they draw it.
pub mod laws;
pub mod settings;
pub mod view;
