//! Placing the detail inspector: a rectangle in the middle of the screen.

use ratatui::layout::{Constraint, Direction, Layout, Rect};
use vstd::prelude::*;

verus! {

/// A rectangle of terminal cells.
#[derive(Clone, Copy, Debug, PartialEq, Eq, Structural)]
pub struct Area {
    /// Column of the left edge.
    pub x: u16,
    /// Row of the top edge.
    pub y: u16,
    /// Number of columns.
    pub width: u16,
    /// Number of rows.
    pub height: u16,
}

/// The direction in which an area is cut into parts.
#[derive(Clone, Copy, Debug, PartialEq, Eq, Structural)]
pub enum Axis {
    /// The parts stand side by side.
    Horizontal,
    /// The parts lie one above the other.
    Vertical,
}

/// `part` reaches from side to side of `area` across `axis`: a part of a vertical cut
/// is as wide as the area, one of a horizontal cut as high.
pub open spec fn spans(axis: Axis, area: Area, part: Area) -> bool {
    match axis {
        Axis::Vertical => part.x == area.x && part.width == area.width,
        Axis::Horizontal => part.y == area.y && part.height == area.height,
    }
}

/// `part` lies within `area`: it covers no cell that the area does not cover.
pub open spec fn lies_within(area: Area, part: Area) -> bool {
    &&& area.x <= part.x
    &&& part.x + part.width <= area.x + area.width
    &&& area.y <= part.y
    &&& part.y + part.height <= area.y + area.height
}

/// The three shares, in percent, that put a part of `percent` in the middle: what is
/// left over is halved, rounding down, and goes before and behind it.
pub open spec fn centered_shares_of(percent: u16) -> (u16, u16, u16) {
    (((100 - percent) / 2) as u16, percent, ((100 - percent) / 2) as u16)
}

/// The shares that put a part of `percent` in the middle of an area.
pub fn centered_shares(percent: u16) -> (shares: (u16, u16, u16))
    requires
        percent <= 100,
    ensures
        shares == centered_shares_of(percent),
{
    let margin: u16 = (100 - percent) / 2;
    (margin, percent, margin)
}

/// Calls `Layout::split` of ratatui, for a layout of three percentage constraints along
/// `axis` and no margin. Assumed of it: the split gives one rectangle for each
/// constraint; each has the area's own position and extent across the axis; and each
/// begins and ends within the area along the axis, which ratatui demands of its
/// constraint solver. Where in the area the solver puts the parts is not claimed here.
#[verifier::external_body]
fn split_in_three(axis: Axis, shares: (u16, u16, u16), area: Area) -> (parts: Vec<Area>)
    ensures
        parts@.len() == 3,
        forall|i: int| 0 <= i < 3 ==> spans(axis, area, #[trigger] parts@[i]),
        forall|i: int| 0 <= i < 3 ==> lies_within(area, #[trigger] parts@[i]),
{
    let direction = match axis {
        Axis::Horizontal => Direction::Horizontal,
        Axis::Vertical => Direction::Vertical,
    };
    let rect = Rect { x: area.x, y: area.y, width: area.width, height: area.height };
    let constraints = [
        Constraint::Percentage(shares.0),
        Constraint::Percentage(shares.1),
        Constraint::Percentage(shares.2),
    ];
    let parts = Layout::default().direction(direction).constraints(constraints).split(rect);
    parts.iter().map(|r| Area { x: r.x, y: r.y, width: r.width, height: r.height }).collect()
}

/// The middle one of three parts.
pub fn middle_of(parts: &Vec<Area>) -> (middle: Area)
    requires
        parts@.len() == 3,
    ensures
        middle == parts@[1],
{
    parts[1]
}

/// The middle band of `area` along `axis`, as ratatui's layout cuts it when asked for
/// the shares of `centered_shares(percent)`. The layout decides how many cells the band
/// takes and where it begins; whatever it decides, the band lies within the area and
/// reaches from side to side of it across the axis.
pub fn centered_band(axis: Axis, percent: u16, area: Area) -> (band: Area)
    requires
        percent <= 100,
    ensures
        spans(axis, area, band),
        lies_within(area, band),
{
    let parts = split_in_three(axis, centered_shares(percent), area);
    middle_of(&parts)
}

/// The rectangle in the middle of `r` that is to take `percent_x` of its width and
/// `percent_y` of its height: the middle band of the rows, and of that the middle band
/// of the columns. Its size and place are the layout's to decide, as for each band;
/// whatever it decides, the rectangle lies within `r`.
pub fn centered_rect(percent_x: u16, percent_y: u16, r: Area) -> (popup: Area)
    requires
        percent_x <= 100,
        percent_y <= 100,
    ensures
        lies_within(r, popup),
{
    let rows = centered_band(Axis::Vertical, percent_y, r);
    centered_band(Axis::Horizontal, percent_x, rows)
}

} // verus!
