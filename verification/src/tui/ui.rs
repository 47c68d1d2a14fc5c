//! The panes of the interface and the plain-value widgets they are drawn
//! from.

pub mod builder;
pub mod color_theme;
pub mod layout;
pub mod notification;
pub mod playback;
pub mod playlist;
pub mod queue;
pub mod search_bar;
pub mod style;
pub mod widgets;
