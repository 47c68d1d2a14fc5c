//! State and decision logic of a terminal music player: the panes and key
//! bindings, the search and download bookkeeping, the playlist and queue,
//! and the plain-value description of each screen.
//!
//! The library neither draws nor waits nor reads a clock, a disk or a
//! network. It is handed events and the time, changes its state, and hands
//! back what is to be done and what is to be drawn.
//!
//! Everything here is proved against its contract, but for what is taken
//! on trust from outside code: the specifications of `String::push`,
//! `String::pop`, `String::clear` and of the equality of `str` in
//! [`utils::text`], and the wrapper around `Layout::split` of the `tui`
//! crate in [`tui::ui::layout`].

pub mod models;
pub mod services;
pub mod tui;
pub mod utils;
