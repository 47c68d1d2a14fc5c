//! Text and formatting helpers shared by the rest of the crate.

pub mod format;
pub mod text;
pub mod video_tools;
