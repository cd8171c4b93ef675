//! Remote desktops over RDP.
pub mod bitmap;
pub mod decode;
pub mod gfx;
pub mod input;
pub mod laws;
pub mod slowpath;
pub mod trace;
pub mod worker;
pub mod zgfx;
pub mod zgfx_laws;
