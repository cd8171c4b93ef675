//! VNC: the local copy of the picture, the mouse cursor drawn over it, keys, and the decisions of
//! the connection worker.
pub mod cursor;
pub mod event_laws;
pub mod framebuffer;
pub mod key_laws;
pub mod keys;
pub mod laws;
pub mod worker;
