//! Rectangles of the terminal, and whether a screen fits.

use vstd::prelude::*;

verus! {

/// A rectangle of the terminal: its corner, its columns and its rows.
#[derive(Debug, Clone, Copy, PartialEq, Eq, Structural)]
pub struct Rect {
    pub x: u16,
    pub y: u16,
    pub width: u16,
    pub height: u16,
}

impl Rect {
    pub fn new(x: u16, y: u16, width: u16, height: u16) -> (rect: Self)
        ensures
            rect == (Rect { x, y, width, height }),
    {
        Rect { x, y, width, height }
    }
}

impl Default for Rect {
    fn default() -> (rect: Self)
        ensures
            rect == (Rect { x: 0, y: 0, width: 0, height: 0 }),
    {
        Rect { x: 0, y: 0, width: 0, height: 0 }
    }
}

/// The direction in which a rectangle is split.
#[derive(Debug, Clone, Copy, PartialEq, Eq, Structural)]
pub enum Direction {
    Horizontal,
    Vertical,
}

/// The three rectangles, each as corner, columns and rows, that ratatui's
/// layout makes of a rectangle which it is to split, down where `vertical`
/// and across otherwise, into parts of three given lengths.
pub uninterp spec fn ratatui_split(
    vertical: bool,
    x: u16,
    y: u16,
    width: u16,
    height: u16,
    first: u16,
    second: u16,
    third: u16,
) -> Seq<(u16, u16, u16, u16)>;

/// A rectangle as corner, columns and rows.
pub open spec fn quad(rect: Rect) -> (u16, u16, u16, u16) {
    (rect.x, rect.y, rect.width, rect.height)
}

/// The rectangles that `split_in_three` gives.
pub open spec fn split(direction: Direction, area: Rect, lengths: (u16, u16, u16)) -> Seq<
    (u16, u16, u16, u16),
> {
    ratatui_split(
        direction == Direction::Vertical,
        area.x,
        area.y,
        area.width,
        area.height,
        lengths.0,
        lengths.1,
        lengths.2,
    )
}

/// `Layout::split` of ratatui, on the default layout with the direction
/// given and three `Constraint::Length` constraints: one rectangle for each
/// constraint, which depend on the area, the direction and the lengths
/// alone.
#[verifier::external_body]
fn split_in_three(direction: Direction, area: Rect, lengths: (u16, u16, u16)) -> (parts: Vec<Rect>)
    ensures
        parts@.len() == 3,
        parts@.map_values(|rect: Rect| quad(rect)) == ratatui_split(
            direction == Direction::Vertical,
            area.x,
            area.y,
            area.width,
            area.height,
            lengths.0,
            lengths.1,
            lengths.2,
        ),
{
    let direction = match direction {
        Direction::Horizontal => ratatui::layout::Direction::Horizontal,
        Direction::Vertical => ratatui::layout::Direction::Vertical,
    };
    let constraints = [lengths.0, lengths.1, lengths.2].map(ratatui::layout::Constraint::Length);
    let area = ratatui::layout::Rect { x: area.x, y: area.y, width: area.width, height: area.height };
    let parts = ratatui::layout::Layout::default().direction(direction).constraints(constraints).split(area);
    parts.iter().map(|r| Rect { x: r.x, y: r.y, width: r.width, height: r.height }).collect()
}

/// The rectangle of `width` columns and `height` rows in the middle of `r`,
/// which must have room for it: the middle one of three rows of `r`, and of
/// that row the middle one of three columns.
pub fn centered_absolute_rect(r: Rect, width: u16, height: u16) -> (middle: Rect)
    requires
        width <= r.width,
        height <= r.height,
    ensures
        ({
            let above = ((r.height - height) / 2) as u16;
            let beside = ((r.width - width) / 2) as u16;
            let rows = split(Direction::Vertical, r, (above, height, above));
            let row = Rect { x: rows[1].0, y: rows[1].1, width: rows[1].2, height: rows[1].3 };
            quad(middle) == split(Direction::Horizontal, row, (beside, width, beside))[1]
        }),
{
    let above = (r.height - height) / 2;
    let beside = (r.width - width) / 2;
    let rows = split_in_three(Direction::Vertical, r, (above, height, above));
    let row = rows[1];
    assert(quad(row) == rows@.map_values(|rect: Rect| quad(rect))[1]);
    let columns = split_in_three(Direction::Horizontal, row, (beside, width, beside));
    assert(quad(columns[1]) == columns@.map_values(|rect: Rect| quad(rect))[1]);
    columns[1]
}

/// Whether the terminal is too small for the popups or for the screen, and
/// the size it would need: that of the popups if they do not fit, else that
/// of the screen if it does not.
pub fn check_if_out_of_bound(popups: (u16, u16), screen: (u16, u16), rect: Rect) -> (needed: Option<
    (u16, u16),
>)
    ensures
        needed == if popups.0 > rect.width || popups.1 > rect.height {
            Some(popups)
        } else if screen.0 > rect.width || screen.1 > rect.height {
            Some(screen)
        } else {
            None
        },
{
    if popups.0 > rect.width || popups.1 > rect.height {
        return Some(popups);
    }
    if screen.0 > rect.width || screen.1 > rect.height {
        return Some(screen);
    }
    None
}

} // verus!
