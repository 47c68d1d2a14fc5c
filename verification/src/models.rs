//! The records that the player holds: catalog search results and local songs.

pub mod song;
pub mod video;
