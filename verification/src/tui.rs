//! The terminal interface: the application state, its transitions and the
//! widgets it shows.

pub mod app;
pub mod laws;
pub mod model;
pub mod ui;
