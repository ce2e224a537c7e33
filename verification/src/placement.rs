//! Where a window goes on the display under the pointer.
//!
//! A placement rule maps a display's rectangle and a window's size to the
//! window's new rectangle. The functions here find the display, apply a rule
//! and hand back the one rectangle that the caller is to set, in a single
//! native call. When no display holds the pointer they hand back nothing and
//! the window stays where it is.

use vstd::prelude::*;
use crate::geometry::{Point, Rect, Size};
use crate::monitor::{get_monitor_with_cursor, holds_at, lemma_none_under, monitor_under, Screen};
use crate::scale::{clamp_u32, ScaleFactor};

verus! {

/// The coordinate that centers a window of extent `window` on a display that
/// starts at `display_origin` and has extent `display`. Where the room left
/// over is odd, the smaller half lies before the window.
pub open spec fn centered_coordinate(display_origin: int, display: int, window: int) -> int {
    display_origin + (display - window) / 2
}

/// The coordinate that puts the far edge of a window of extent `window` on the
/// far edge of a display that starts at `display_origin` and has extent
/// `display`.
pub open spec fn far_edge_coordinate(display_origin: int, display: int, window: int) -> int {
    display_origin + display - window
}

/// The origin that centers a window of size `window` on `display`.
pub open spec fn centered_origin(display: Rect, window: Size) -> Point {
    Point {
        x: centered_coordinate(
            display.origin.x as int,
            display.size.width as int,
            window.width as int,
        ) as i64,
        y: centered_coordinate(
            display.origin.y as int,
            display.size.height as int,
            window.height as int,
        ) as i64,
    }
}

/// The origin that puts a window of size `window` flush with the right edge of
/// `display`, at the display's own y.
pub open spec fn corner_origin(display: Rect, window: Size) -> Point {
    Point {
        x: far_edge_coordinate(
            display.origin.x as int,
            display.size.width as int,
            window.width as int,
        ) as i64,
        y: display.origin.y,
    }
}

/// The size of a window that covers the share `share` of a display of size
/// `display`: each side times the share, cut toward zero and held to the range
/// of `u32`.
pub open spec fn covering_size(display: Size, share: ScaleFactor) -> Size {
    Size {
        width: clamp_u32(share.times(display.width as int)) as u32,
        height: clamp_u32(share.times(display.height as int)) as u32,
    }
}

/// The rectangle of a window that covers the share `share` of `display` and is
/// centered on it.
pub open spec fn covering_frame(display: Rect, share: ScaleFactor) -> Rect {
    Rect {
        origin: centered_origin(display, covering_size(display.size, share)),
        size: covering_size(display.size, share),
    }
}

/// A centered window has as much room before it as after it, or one unit less.
/// This holds of a window larger than the display too, with negative room.
pub proof fn lemma_centered_margins(display: Rect, window: Size)
    requires
        display.origin.has_room(),
    ensures
        ({
            let placed = Rect { origin: centered_origin(display, window), size: window };
            let left = placed.min_x() - display.min_x();
            let right = display.max_x() - placed.max_x();
            let low = placed.min_y() - display.min_y();
            let high = display.max_y() - placed.max_y();
            &&& left + window.width + right == display.size.width
            &&& left <= right <= left + 1
            &&& low + window.height + high == display.size.height
            &&& low <= high <= low + 1
        }),
{
}

/// A window that covers the whole of a display has exactly the display's
/// rectangle.
pub proof fn lemma_covering_all(display: Rect, share: ScaleFactor)
    requires
        share.valid(),
        share.numer() == share.denom(),
    ensures
        covering_frame(display, share) == display,
        PlacementRule::Fullscreen(share).frame_for(display, display.size) == display,
{
    lemma_share_of(display.size.width as int, share.numer(), 1, 1);
    lemma_share_of(display.size.height as int, share.numer(), 1, 1);
}

/// A window that covers half of a display has half the display's width and
/// half its height, each rounded down, and is centered on the display.
pub proof fn lemma_covering_half(display: Rect, share: ScaleFactor)
    requires
        share.valid(),
        share.numer() * 2 == share.denom(),
        display.origin.has_room(),
    ensures
        ({
            let placed = covering_frame(display, share);
            let w = display.size.width as int;
            let h = display.size.height as int;
            &&& placed.size.width == w / 2
            &&& placed.size.height == h / 2
            &&& placed.origin.x == display.origin.x + (w - w / 2) / 2
            &&& placed.origin.y == display.origin.y + (h - h / 2) / 2
        }),
{
    lemma_share_of(display.size.width as int, share.numer(), 1, 2);
    lemma_share_of(display.size.height as int, share.numer(), 1, 2);
}

/// A share `k * a / (k * b)` of `v` is the share `a / b` of it.
proof fn lemma_share_of(v: int, k: int, a: int, b: int)
    requires
        v >= 0,
        k > 0,
        a >= 0,
        b > 0,
    ensures
        (v * (k * a)) / (k * b) == (v * a) / b,
        v * (k * a) >= 0,
        k * b > 0,
{
    assert(v * (k * a) == k * (v * a)) by (nonlinear_arith);
    assert(v * a >= 0 && k * b > 0 && k * (v * a) >= 0) by (nonlinear_arith)
        requires
            v >= 0,
            k > 0,
            a >= 0,
            b > 0,
    ;
    vstd::arithmetic::div_mod::lemma_div_multiples_vanish_quotient(k, v * a, b);
}

/// How a window is placed on the display under the pointer.
#[derive(Clone, Copy, Debug, PartialEq, Eq, Structural)]
pub enum PlacementRule {
    /// The window keeps its size and is centered on the display.
    Centered,
    /// The window covers the given share of the display and is centered on it.
    Fullscreen(ScaleFactor),
    /// The window keeps its size and sits flush with the display's right edge,
    /// at the display's own y.
    Corner,
}

impl PlacementRule {
    /// The rectangle that this rule gives a window of size `window` on
    /// `display`.
    pub open spec fn frame_for(self, display: Rect, window: Size) -> Rect {
        match self {
            PlacementRule::Centered => Rect {
                origin: centered_origin(display, window),
                size: window,
            },
            PlacementRule::Fullscreen(share) => covering_frame(display, share),
            PlacementRule::Corner => Rect { origin: corner_origin(display, window), size: window },
        }
    }

    /// Computes [`PlacementRule::frame_for`]. The display's origin must leave
    /// room for the offset; the origin of a display that a query found does.
    pub fn place(&self, display: Rect, window: Size) -> (r: Rect)
        requires
            display.origin.has_room(),
        ensures
            r == self.frame_for(display, window),
    {
        match self {
            PlacementRule::Centered => Rect {
                origin: centered(display.origin, display.size, window),
                size: window,
            },
            PlacementRule::Fullscreen(share) => covering(display, *share),
            PlacementRule::Corner => Rect {
                origin: corner(display.origin, display.size, window),
                size: window,
            },
        }
    }
}

/// Half of `display - window`, rounded down.
fn half_of_room(display: u32, window: u32) -> (h: i64)
    ensures
        h == (display - window) / 2,
        -(u32::MAX as int) <= h <= u32::MAX,
{
    let d: i64 = display as i64 - window as i64;
    if d >= 0 {
        d / 2
    } else {
        -((1 - d) / 2)
    }
}

/// The centering rule: the origin that centers a window of size `window` on
/// the display at `display_position` with size `display_size`.
pub fn centered(display_position: Point, display_size: Size, window: Size) -> (origin: Point)
    requires
        display_position.has_room(),
    ensures
        origin == centered_origin(Rect { origin: display_position, size: display_size }, window),
{
    Point {
        x: display_position.x + half_of_room(display_size.width, window.width),
        y: display_position.y + half_of_room(display_size.height, window.height),
    }
}

/// The corner rule: the origin that puts a window of size `window` flush with
/// the right edge of the display at `display_position` with size
/// `display_size`, at the display's own y.
pub fn corner(display_position: Point, display_size: Size, window: Size) -> (origin: Point)
    requires
        display_position.has_room(),
    ensures
        origin == corner_origin(Rect { origin: display_position, size: display_size }, window),
{
    Point {
        x: display_position.x + (display_size.width as i64 - window.width as i64),
        y: display_position.y,
    }
}

/// The rectangle of a window that covers the share `share` of `display` and is
/// centered on it.
pub fn covering(display: Rect, share: ScaleFactor) -> (r: Rect)
    requires
        display.origin.has_room(),
    ensures
        r == covering_frame(display, share),
{
    let size = Size {
        width: share.extent_to_physical(display.size.width),
        height: share.extent_to_physical(display.size.height),
    };
    Rect { origin: centered(display.origin, display.size, size), size }
}

/// The rectangle that makes a window cover the share `scale_factor` of the
/// display under the pointer, centered on it; nothing when no display holds
/// the pointer.
pub fn position_window_fullscreen(
    mouse_location: Point,
    screens: &Vec<Screen>,
    scale_factor: ScaleFactor,
) -> (placed: Option<Rect>)
    ensures
        placed == match monitor_under(screens@, mouse_location) {
            Some(monitor) => Some(covering_frame(monitor.frame(), scale_factor)),
            None => None,
        },
{
    match get_monitor_with_cursor(mouse_location, screens) {
        Some(monitor) => Some(covering(monitor.logical_frame(), scale_factor)),
        None => None,
    }
}

/// The rectangle that centers a window with the frame `win_frame` on the
/// display under the pointer, its size unchanged; nothing when no display
/// holds the pointer.
pub fn position_window_at_the_center_of_the_monitor_with_cursor(
    mouse_location: Point,
    screens: &Vec<Screen>,
    win_frame: Rect,
) -> (placed: Option<Rect>)
    ensures
        placed == match monitor_under(screens@, mouse_location) {
            Some(monitor) => Some(
                Rect {
                    origin: centered_origin(monitor.frame(), win_frame.size),
                    size: win_frame.size,
                },
            ),
            None => None,
        },
{
    match get_monitor_with_cursor(mouse_location, screens) {
        Some(monitor) => {
            let display = monitor.logical_frame();
            Some(
                Rect {
                    origin: centered(display.origin, display.size, win_frame.size),
                    size: win_frame.size,
                },
            )
        },
        None => None,
    }
}

/// The rectangle that moves a window with the frame `win_frame` to the origin
/// that `callback` picks from the position and size of the display under the
/// pointer and the window's size. The window keeps its size. Nothing when no
/// display holds the pointer; the callback is then not called. The callback
/// must take any display whose position leaves room for an offset, as the
/// position of every display that is found does.
pub fn position_window<F>(
    mouse_location: Point,
    screens: &Vec<Screen>,
    win_frame: Rect,
    callback: F,
) -> (placed: Option<Rect>) where F: Fn(Point, Size, Size) -> Point
    requires
        forall|position: Point, size: Size|
            position.has_room() ==> #[trigger] call_requires(
                callback,
                (position, size, win_frame.size),
            ),
    ensures
        match monitor_under(screens@, mouse_location) {
            Some(monitor) => placed matches Some(r) && r.size == win_frame.size && call_ensures(
                callback,
                (monitor.frame().origin, monitor.frame().size, win_frame.size),
                r.origin,
            ),
            None => placed is None,
        },
{
    match get_monitor_with_cursor(mouse_location, screens) {
        Some(monitor) => {
            let display = monitor.logical_frame();
            Some(
                Rect {
                    origin: callback(display.origin, display.size, win_frame.size),
                    size: win_frame.size,
                },
            )
        },
        None => None,
    }
}

/// Places a window on the display under the pointer by `rule`. `frame` holds
/// the window's rectangle before the call and the rectangle to set after it.
/// Returns whether a display was found. When none holds the pointer, `frame`
/// is left as it was and there is nothing to set.
pub fn apply_placement(
    frame: &mut Rect,
    mouse_location: Point,
    screens: &Vec<Screen>,
    rule: PlacementRule,
) -> (found: bool)
    ensures
        found == monitor_under(screens@, mouse_location).is_some(),
        *final(frame) == match monitor_under(screens@, mouse_location) {
            Some(monitor) => rule.frame_for(monitor.frame(), old(frame).size),
            None => *old(frame),
        },
        (forall|i: int| !holds_at(screens@, mouse_location, i)) ==> *final(frame) == *old(frame),
{
    proof {
        lemma_none_under(screens@, mouse_location);
    }
    match get_monitor_with_cursor(mouse_location, screens) {
        Some(monitor) => {
            let display = monitor.logical_frame();
            *frame = rule.place(display, frame.size);
            true
        },
        None => false,
    }
}

} // verus!
