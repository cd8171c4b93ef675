//! The picture of a remote desktop: updates that arrive, and what has to be uploaded for display.
pub mod display;
pub mod laws;
pub mod pixel_laws;
pub mod pixels;
pub mod renderer;

pub use crate::remote_display::display::{
    FrameBatchStats, FrameUpdate, FullUploadPromotionReason, RemoteDisplayState,
};
