use vstd::prelude::*;
use ratatui::layout::{Constraint, Direction, Layout, Rect};

verus! {

/// A rectangle of terminal cells.
#[derive(Clone, Copy, Debug, PartialEq, Eq, Structural)]
pub struct Area {
    pub x: u16,
    pub y: u16,
    pub width: u16,
    pub height: u16,
}

/// The direction in which an area is cut.
#[derive(Clone, Copy, Debug, PartialEq, Eq, Structural)]
pub enum Axis {
    Horizontal,
    Vertical,
}

/// The middle piece, as `(x, y, width, height)`, of the area at
/// `(x, y, width, height)` cut along `axis` into three pieces of `first`,
/// `middle` and `last` percent, as the layout solver of `ratatui` places them.
pub uninterp spec fn layout_middle(
    vertical: bool,
    first: u16,
    middle: u16,
    last: u16,
    x: u16,
    y: u16,
    width: u16,
    height: u16,
) -> (u16, u16, u16, u16);

/// The view of an area as a tuple.
pub open spec fn area_tuple(a: Area) -> (u16, u16, u16, u16) {
    (a.x, a.y, a.width, a.height)
}

/// Calls `Layout::split` of `ratatui` with three percentage constraints and
/// returns the middle piece. Trusted: the piece is a function of the
/// direction, the percentages and the area, named `layout_middle`; it spans
/// the area across the cut and lies within it along the cut (the solver's
/// required bounds). Where along the cut it lies is not stated.
#[verifier::external_body]
fn split_middle(axis: Axis, first: u16, middle: u16, last: u16, area: Area) -> (r: Area)
    ensures
        area_tuple(r) == layout_middle(
            axis == Axis::Vertical,
            first,
            middle,
            last,
            area.x,
            area.y,
            area.width,
            area.height,
        ),
        axis == Axis::Horizontal ==> {
            &&& r.y == area.y && r.height == area.height
            &&& area.x <= r.x && r.x + r.width <= area.x + area.width
        },
        axis == Axis::Vertical ==> {
            &&& r.x == area.x && r.width == area.width
            &&& area.y <= r.y && r.y + r.height <= area.y + area.height
        },
{
    let direction = match axis {
        Axis::Horizontal => Direction::Horizontal,
        Axis::Vertical => Direction::Vertical,
    };
    let rect = Rect { x: area.x, y: area.y, width: area.width, height: area.height };
    let pieces = Layout::default().direction(direction).constraints([
        Constraint::Percentage(first),
        Constraint::Percentage(middle),
        Constraint::Percentage(last),
    ]).split(rect);
    Area { x: pieces[1].x, y: pieces[1].y, width: pieces[1].width, height: pieces[1].height }
}

/// The rectangle of `percent_x` by `percent_y` percent of `r` centred in it:
/// `r` is cut vertically into `(100 - percent_y) / 2`, `percent_y`,
/// `(100 - percent_y) / 2` percent, and the middle row horizontally likewise
/// with `percent_x`. The result lies within `r`.
pub fn centered_rect(percent_x: u16, percent_y: u16, r: Area) -> (c: Area)
    requires
        percent_x <= 100,
        percent_y <= 100,
    ensures
        ({
            let my = ((100 - percent_y) / 2) as u16;
            let mx = ((100 - percent_x) / 2) as u16;
            let row = layout_middle(true, my, percent_y, my, r.x, r.y, r.width, r.height);
            area_tuple(c) == layout_middle(false, mx, percent_x, mx, row.0, row.1, row.2, row.3)
        }),
        r.x <= c.x && c.x + c.width <= r.x + r.width,
        r.y <= c.y && c.y + c.height <= r.y + r.height,
{
    let margin_y = (100 - percent_y) / 2;
    let row = split_middle(Axis::Vertical, margin_y, percent_y, margin_y, r);
    let margin_x = (100 - percent_x) / 2;
    split_middle(Axis::Horizontal, margin_x, percent_x, margin_x, row)
}

} // verus!
