//! Rectangles of the terminal and the splitting of one into two.

use vstd::prelude::*;

verus! {

/// A rectangle of terminal cells.
#[derive(Clone, Copy, Debug, PartialEq, Eq, Structural)]
pub struct Rect {
    pub x: u16,
    pub y: u16,
    pub width: u16,
    pub height: u16,
}

/// The direction along which an area is split.
#[derive(Clone, Copy, Debug, PartialEq, Eq, Structural)]
pub enum Direction {
    Horizontal,
    Vertical,
}

/// The size of `area` along `direction`.
pub open spec fn extent(direction: Direction, area: Rect) -> nat {
    match direction {
        Direction::Horizontal => area.width as nat,
        Direction::Vertical => area.height as nat,
    }
}

/// Whether `area` ends inside the 16-bit coordinates in the direction
/// across `direction`.
pub open spec fn ends_inside(direction: Direction, area: Rect) -> bool {
    match direction {
        Direction::Horizontal => area.y + area.height <= u16::MAX,
        Direction::Vertical => area.x + area.width <= u16::MAX,
    }
}

/// Whether `area` can be split along `direction` into parts of `first` and
/// `second` percent. The layout engine multiplies each percentage by the
/// size of the area along `direction` in 16 bits, and it cannot place the
/// parts where the area runs out of the 16-bit coordinates across
/// `direction`.
pub open spec fn can_split(direction: Direction, first: u16, second: u16, area: Rect) -> bool {
    &&& first * extent(direction, area) <= u16::MAX
    &&& second * extent(direction, area) <= u16::MAX
    &&& ends_inside(direction, area)
}

/// `Layout::split` of the `tui` crate, for a layout without margin, along
/// `direction`, with the two constraints `Percentage(first)` and
/// `Percentage(second)`. It returns one rectangle for each constraint, so
/// two. Where they lie is the outcome of a constraint solver and is not
/// stated. The areas on which it panics are left out: those whose size
/// times a percentage leaves 16 bits, and those that run out of the 16-bit
/// coordinates across the direction, on which its solver finds the required
/// constraints unsatisfiable.
#[verifier::external_body]
fn split_percentages(direction: Direction, first: u16, second: u16, area: Rect) -> (chunks: Vec<
    Rect,
>)
    requires
        can_split(direction, first, second, area),
    ensures
        chunks.len() == 2,
{
    let along = match direction {
        Direction::Horizontal => ::tui::layout::Direction::Horizontal,
        Direction::Vertical => ::tui::layout::Direction::Vertical,
    };
    let sizes = vec![
        ::tui::layout::Constraint::Percentage(first),
        ::tui::layout::Constraint::Percentage(second),
    ];
    let (x, y, width, height) = (area.x, area.y, area.width, area.height);
    let whole = ::tui::layout::Rect { x, y, width, height };
    let chunks = ::tui::layout::Layout::default().direction(along).constraints(sizes).split(whole);
    chunks.iter().map(|c| Rect { x: c.x, y: c.y, width: c.width, height: c.height }).collect()
}

fn fits(percent: u16, size: u16) -> (ok: bool)
    ensures
        ok == (percent * size <= u16::MAX),
{
    assert(percent * size <= 0xffff * 0xffff) by (nonlinear_arith)
        requires
            percent <= 0xffff,
            size <= 0xffff,
    ;
    (percent as u32) * (size as u32) <= 0xffff
}

/// Splits `area` along `direction` into a part of `first` percent followed
/// by a part of `second` percent, where the layout engine can take the
/// area; else there is no split.
pub fn split(direction: Direction, first: u16, second: u16, area: Rect) -> (parts: Option<
    (Rect, Rect),
>)
    ensures
        parts is Some <==> can_split(direction, first, second, area),
{
    let (size, start, across) = match direction {
        Direction::Horizontal => (area.width, area.y, area.height),
        Direction::Vertical => (area.height, area.x, area.width),
    };
    if fits(first, size) && fits(second, size) && across <= u16::MAX - start {
        first_two(split_percentages(direction, first, second, area))
    } else {
        None
    }
}

/// The two parts of a split from the rectangles that the layout engine
/// has returned: the first and the second, in its order. There are none
/// where it has not returned exactly two.
pub fn first_two(chunks: Vec<Rect>) -> (parts: Option<(Rect, Rect)>)
    ensures
        chunks.len() == 2 ==> parts == Some((chunks[0], chunks[1])),
        chunks.len() != 2 ==> parts is None,
{
    if chunks.len() == 2 {
        Some((chunks[0], chunks[1]))
    } else {
        None
    }
}

} // verus!
