//! The colors of the interface.

use vstd::prelude::*;
use crate::tui::ui::style::Color;

verus! {

/// The colors that the widgets draw with.
#[derive(Clone, Copy, Debug, PartialEq, Eq, Structural)]
pub struct ColorTheme {
    pub background: Color,
    pub text: Color,
    pub highlight: Color,
    pub accent1: Color,
    pub accent2: Color,
    pub error: Color,
    pub success: Color,
}

/// The Catppuccin Mocha palette.
pub open spec fn mocha() -> ColorTheme {
    ColorTheme {
        background: Color::Rgb(30, 30, 46),
        text: Color::Rgb(217, 224, 238),
        highlight: Color::Rgb(245, 224, 220),
        accent1: Color::Rgb(242, 205, 205),
        accent2: Color::Rgb(148, 226, 213),
        error: Color::Rgb(243, 139, 168),
        success: Color::Rgb(166, 227, 161),
    }
}

impl ColorTheme {
    /// The Catppuccin Mocha palette.
    pub fn catppuccin_mocha() -> (theme: Self)
        ensures
            theme == mocha(),
    {
        ColorTheme {
            background: Color::Rgb(30, 30, 46),
            text: Color::Rgb(217, 224, 238),
            highlight: Color::Rgb(245, 224, 220),
            accent1: Color::Rgb(242, 205, 205),
            accent2: Color::Rgb(148, 226, 213),
            error: Color::Rgb(243, 139, 168),
            success: Color::Rgb(166, 227, 161),
        }
    }
}

} // verus!
