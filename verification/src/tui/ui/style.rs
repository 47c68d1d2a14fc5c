//! Colors and styles, as plain values.

use vstd::prelude::*;

verus! {

/// A terminal color: one of the named colors in use, or a 24-bit color.
#[derive(Clone, Copy, Debug, PartialEq, Eq, Structural)]
pub enum Color {
    Red,
    Green,
    Yellow,
    Blue,
    Rgb(u8, u8, u8),
}

/// The foreground and background that a widget or a piece of text asks for.
/// `None` leaves the color as it is underneath.
#[derive(Clone, Copy, Debug, PartialEq, Eq, Structural)]
pub struct Style {
    pub fg: Option<Color>,
    pub bg: Option<Color>,
}

impl Style {
    /// This style with the foreground set to `color`.
    pub fn fg(self, color: Color) -> (style: Self)
        ensures
            style == (Style { fg: Some(color), bg: self.bg }),
    {
        Style { fg: Some(color), bg: self.bg }
    }

    /// This style with the background set to `color`.
    pub fn bg(self, color: Color) -> (style: Self)
        ensures
            style == (Style { fg: self.fg, bg: Some(color) }),
    {
        Style { fg: self.fg, bg: Some(color) }
    }
}

impl Default for Style {
    /// The style that changes nothing.
    fn default() -> (style: Self)
        ensures
            style == (Style { fg: None, bg: None }),
    {
        Style { fg: None, bg: None }
    }
}

/// The style with foreground `color` and no background.
pub open spec fn fg_style(color: Color) -> Style {
    Style { fg: Some(color), bg: None }
}

} // verus!
