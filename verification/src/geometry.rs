//! Points, sizes and rectangles in logical units, and the native
//! point-in-rectangle test.

use vstd::prelude::*;

verus! {

/// A position in the shared desktop coordinate space, in logical units.
#[derive(Clone, Copy, Debug, PartialEq, Eq, Structural)]
pub struct Point {
    pub x: i64,
    pub y: i64,
}

impl Point {
    /// Both coordinates are far enough from the ends of `i64` that an offset
    /// of up to `u32::MAX` either way stays in range.
    pub open spec fn has_room(self) -> bool {
        &&& i64::MIN + u32::MAX <= self.x <= i64::MAX - u32::MAX
        &&& i64::MIN + u32::MAX <= self.y <= i64::MAX - u32::MAX
    }
}

impl Point {
    /// Computes [`Point::has_room`].
    pub fn leaves_room(&self) -> (room: bool)
        ensures
            room == self.has_room(),
    {
        let low: i64 = i64::MIN + 0xffff_ffff;
        let high: i64 = i64::MAX - 0xffff_ffff;
        low <= self.x && self.x <= high && low <= self.y && self.y <= high
    }
}

/// The extent of a window or of a display.
#[derive(Clone, Copy, Debug, PartialEq, Eq, Structural)]
pub struct Size {
    pub width: u32,
    pub height: u32,
}

/// A rectangle given by its origin and its extent.
#[derive(Clone, Copy, Debug, PartialEq, Eq, Structural)]
pub struct Rect {
    pub origin: Point,
    pub size: Size,
}

impl Rect {
    /// The smallest x that belongs to the rectangle.
    pub open spec fn min_x(self) -> int {
        self.origin.x as int
    }

    /// The first x past the rectangle.
    pub open spec fn max_x(self) -> int {
        self.origin.x + self.size.width
    }

    /// The smallest y of the rectangle's extent.
    pub open spec fn min_y(self) -> int {
        self.origin.y as int
    }

    /// The largest y of the rectangle's extent.
    pub open spec fn max_y(self) -> int {
        self.origin.y + self.size.height
    }

    /// Whether `p` lies in the rectangle, as the windowing system decides it
    /// for a pointer. The left edge belongs to the rectangle and the right
    /// edge does not. With `flipped` (y grows downward) the edge at the
    /// smallest y belongs to it and the one at the largest y does not; without
    /// it (y grows upward) it is the other way round. Either way the upper
    /// edge on screen is in and the lower edge is out, so that displays that
    /// touch share no point.
    pub open spec fn holds_pointer(self, p: Point, flipped: bool) -> bool {
        self.spans_x(p.x as int) && self.spans_y(p.y as int, flipped)
    }

    /// The horizontal half of [`Rect::holds_pointer`].
    pub open spec fn spans_x(self, x: int) -> bool {
        self.min_x() <= x < self.max_x()
    }

    /// The vertical half of [`Rect::holds_pointer`].
    pub open spec fn spans_y(self, y: int, flipped: bool) -> bool {
        if flipped {
            self.min_y() <= y < self.max_y()
        } else {
            self.min_y() < y <= self.max_y()
        }
    }

    /// Whether `p` lies in the rectangle and on none of its edges.
    pub open spec fn strictly_inside(self, p: Point) -> bool {
        &&& self.min_x() < p.x < self.max_x()
        &&& self.min_y() < p.y < self.max_y()
    }
}

/// A point strictly inside a rectangle is in it, whichever way y grows.
pub proof fn lemma_strictly_inside_holds(rect: Rect, p: Point, flipped: bool)
    requires
        rect.strictly_inside(p),
    ensures
        rect.holds_pointer(p, flipped),
{
}

/// Of two rectangles that touch side by side, only the right one holds a point
/// on their common edge.
pub proof fn lemma_seam_side_by_side(left: Rect, right: Rect, p: Point, flipped: bool)
    requires
        left.max_x() == right.min_x(),
        right.size.width > 0,
        p.x == right.min_x(),
        right.spans_y(p.y as int, flipped),
    ensures
        !left.holds_pointer(p, flipped),
        right.holds_pointer(p, flipped),
{
}

/// Of two rectangles that touch one above the other, exactly one holds a point
/// on their common edge: the one with the larger y where y grows downward, the
/// one with the smaller y where it grows upward.
pub proof fn lemma_seam_stacked(low: Rect, high: Rect, p: Point, flipped: bool)
    requires
        low.max_y() == high.min_y(),
        low.size.height > 0,
        high.size.height > 0,
        p.y == high.min_y(),
        low.spans_x(p.x as int),
        high.spans_x(p.x as int),
    ensures
        flipped ==> high.holds_pointer(p, flipped) && !low.holds_pointer(p, flipped),
        !flipped ==> low.holds_pointer(p, flipped) && !high.holds_pointer(p, flipped),
{
}

/// Tests whether the pointer position `point` lies in `rect`.
pub fn mouse_in_rect(point: Point, rect: Rect, flipped: bool) -> (inside: bool)
    ensures
        inside == rect.holds_pointer(point, flipped),
{
    let min_x: i128 = rect.origin.x as i128;
    let max_x: i128 = rect.origin.x as i128 + rect.size.width as i128;
    let min_y: i128 = rect.origin.y as i128;
    let max_y: i128 = rect.origin.y as i128 + rect.size.height as i128;
    let x: i128 = point.x as i128;
    let y: i128 = point.y as i128;
    if !(min_x <= x && x < max_x) {
        false
    } else if flipped {
        min_y <= y && y < max_y
    } else {
        min_y < y && y <= max_y
    }
}

} // verus!
