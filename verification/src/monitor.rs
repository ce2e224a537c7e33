//! Finding the display under the pointer.

use vstd::prelude::*;
use crate::geometry::{
    lemma_seam_side_by_side, lemma_seam_stacked, lemma_strictly_inside_holds, mouse_in_rect, Point,
    Rect, Size,
};
use crate::scale::{clamp_i32, clamp_u32, lemma_scale_round_trip, ScaleFactor};

verus! {

/// A position in device pixels.
#[derive(Clone, Copy, Debug, PartialEq, Eq, Structural)]
pub struct PhysicalPosition {
    pub x: i32,
    pub y: i32,
}

/// An extent in device pixels.
#[derive(Clone, Copy, Debug, PartialEq, Eq, Structural)]
pub struct PhysicalSize {
    pub width: u32,
    pub height: u32,
}

/// One attached display as the windowing system reports it: its frame in
/// logical units, its name if it has one, and its device pixels per logical
/// unit.
#[derive(Clone, Debug, PartialEq, Eq)]
pub struct Screen {
    pub name: Option<String>,
    pub frame: Rect,
    pub scale_factor: ScaleFactor,
}

/// A snapshot of the display that held the pointer, in device pixels. It is
/// made anew by every query and never kept.
#[derive(Clone, Debug, PartialEq, Eq)]
pub struct Monitor {
    pub name: Option<String>,
    pub size: PhysicalSize,
    pub position: PhysicalPosition,
    pub scale_factor: ScaleFactor,
}

impl PhysicalPosition {
    /// This position in logical units: each coordinate divided by the scale
    /// factor and cut toward zero.
    pub open spec fn logical(self, scale_factor: ScaleFactor) -> Point {
        Point {
            x: scale_factor.divides(self.x as int) as i64,
            y: scale_factor.divides(self.y as int) as i64,
        }
    }

    /// Computes [`PhysicalPosition::logical`]. The result leaves room for any
    /// offset by a window's or a display's extent.
    pub fn to_logical(&self, scale_factor: ScaleFactor) -> (p: Point)
        ensures
            p == self.logical(scale_factor),
            p.has_room(),
    {
        Point {
            x: scale_factor.position_to_logical(self.x),
            y: scale_factor.position_to_logical(self.y),
        }
    }
}

impl PhysicalSize {
    /// This extent in logical units: each side divided by the scale factor, cut
    /// toward zero and held to the range of `u32`.
    pub open spec fn logical(self, scale_factor: ScaleFactor) -> Size {
        Size {
            width: clamp_u32(scale_factor.divides(self.width as int)) as u32,
            height: clamp_u32(scale_factor.divides(self.height as int)) as u32,
        }
    }

    /// Computes [`PhysicalSize::logical`].
    pub fn to_logical(&self, scale_factor: ScaleFactor) -> (s: Size)
        ensures
            s == self.logical(scale_factor),
    {
        Size {
            width: scale_factor.extent_to_logical(self.width),
            height: scale_factor.extent_to_logical(self.height),
        }
    }
}

impl Monitor {
    /// The display's rectangle in logical units, at the display's own scale
    /// factor.
    pub open spec fn frame(self) -> Rect {
        Rect {
            origin: self.position.logical(self.scale_factor),
            size: self.size.logical(self.scale_factor),
        }
    }

    /// Computes [`Monitor::frame`].
    pub fn logical_frame(&self) -> (r: Rect)
        ensures
            r == self.frame(),
            r.origin.has_room(),
    {
        Rect {
            origin: self.position.to_logical(self.scale_factor),
            size: self.size.to_logical(self.scale_factor),
        }
    }
}

impl Screen {
    /// The snapshot of this display: the same name and scale factor, and the
    /// frame in device pixels, each coordinate scaled, cut toward zero and
    /// held to its field's range.
    pub open spec fn monitor(self) -> Monitor {
        Monitor {
            name: self.name,
            size: PhysicalSize {
                width: clamp_u32(self.scale_factor.times(self.frame.size.width as int)) as u32,
                height: clamp_u32(self.scale_factor.times(self.frame.size.height as int)) as u32,
            },
            position: PhysicalPosition {
                x: clamp_i32(self.scale_factor.times(self.frame.origin.x as int)) as i32,
                y: clamp_i32(self.scale_factor.times(self.frame.origin.y as int)) as i32,
            },
            scale_factor: self.scale_factor,
        }
    }

    /// Computes [`Screen::monitor`].
    pub fn to_monitor(&self) -> (m: Monitor)
        ensures
            m == self.monitor(),
    {
        let name = match &self.name {
            Some(n) => Some(n.clone()),
            None => None,
        };
        Monitor {
            name,
            size: PhysicalSize {
                width: self.scale_factor.extent_to_physical(self.frame.size.width),
                height: self.scale_factor.extent_to_physical(self.frame.size.height),
            },
            position: PhysicalPosition {
                x: self.scale_factor.position_to_physical(self.frame.origin.x),
                y: self.scale_factor.position_to_physical(self.frame.origin.y),
            },
            scale_factor: self.scale_factor,
        }
    }
}

/// Whether display `i` holds the pointer. Screen frames have y growing upward.
pub open spec fn holds_at(screens: Seq<Screen>, p: Point, i: int) -> bool {
    0 <= i < screens.len() && screens[i].frame.holds_pointer(p, false)
}

/// Whether display `i` is the first, in the order given, that holds the
/// pointer.
pub open spec fn first_holding(screens: Seq<Screen>, p: Point, i: int) -> bool {
    &&& holds_at(screens, p, i)
    &&& forall|j: int| 0 <= j < i ==> !holds_at(screens, p, j)
}

/// The index of the first display that holds the pointer, if any does.
pub open spec fn index_under(screens: Seq<Screen>, p: Point) -> Option<int> {
    if exists|i: int| first_holding(screens, p, i) {
        Some(choose|i: int| first_holding(screens, p, i))
    } else {
        None
    }
}

/// The snapshot of the first display that holds the pointer, if any does.
pub open spec fn monitor_under(screens: Seq<Screen>, p: Point) -> Option<Monitor> {
    match index_under(screens, p) {
        Some(i) => Some(screens[i].monitor()),
        None => None,
    }
}

/// At most one display is the first to hold the pointer.
pub proof fn lemma_first_holding_unique(screens: Seq<Screen>, p: Point, i: int, k: int)
    requires
        first_holding(screens, p, i),
        first_holding(screens, p, k),
    ensures
        i == k,
{
    if i < k {
        assert(holds_at(screens, p, i));
    } else if k < i {
        assert(holds_at(screens, p, k));
    }
}

/// Once display `i` is known to be the first to hold the pointer, it is the
/// one that a query finds.
pub proof fn lemma_index_under_is(screens: Seq<Screen>, p: Point, i: int)
    requires
        first_holding(screens, p, i),
    ensures
        index_under(screens, p) == Some(i),
        monitor_under(screens, p) == Some(screens[i].monitor()),
{
    let k = choose|k: int| first_holding(screens, p, k);
    lemma_first_holding_unique(screens, p, i, k);
}

/// A query finds nothing exactly when no display holds the pointer.
pub proof fn lemma_none_under(screens: Seq<Screen>, p: Point)
    ensures
        index_under(screens, p) is None <==> forall|i: int| !holds_at(screens, p, i),
        monitor_under(screens, p) is None <==> index_under(screens, p) is None,
{
    if exists|i: int| holds_at(screens, p, i) {
        let i = choose|i: int| holds_at(screens, p, i);
        lemma_some_first(screens, p, i);
    }
}

/// If some display holds the pointer, one of them is the first.
proof fn lemma_some_first(screens: Seq<Screen>, p: Point, i: int)
    requires
        holds_at(screens, p, i),
    ensures
        exists|k: int| 0 <= k <= i && first_holding(screens, p, k),
    decreases i,
{
    if exists|j: int| 0 <= j < i && holds_at(screens, p, j) {
        let j = choose|j: int| 0 <= j < i && holds_at(screens, p, j);
        lemma_some_first(screens, p, j);
    } else {
        assert(first_holding(screens, p, i));
    }
}

/// What a query finds is the snapshot of one display that was reported, and
/// that display holds the pointer.
pub proof fn lemma_found_is_reported(screens: Seq<Screen>, p: Point)
    requires
        monitor_under(screens, p) is Some,
    ensures
        index_under(screens, p) matches Some(i) && holds_at(screens, p, i) && monitor_under(
            screens,
            p,
        ) == Some(screens[i].monitor()),
{
}

/// A pointer that exactly one display holds is found on that display, wherever
/// the display stands in the order.
pub proof fn lemma_sole_holder_is_found(screens: Seq<Screen>, p: Point, k: int)
    requires
        holds_at(screens, p, k),
        forall|j: int| j != k ==> !holds_at(screens, p, j),
    ensures
        monitor_under(screens, p) == Some(screens[k].monitor()),
{
    assert(first_holding(screens, p, k));
    lemma_index_under_is(screens, p, k);
}

/// A pointer strictly inside one display's frame, and in no other display's,
/// is found on that display. The snapshot has the display's name and scale
/// factor, and its frame with nothing done to it but the change of unit.
pub proof fn lemma_pointer_inside_one_display(screens: Seq<Screen>, p: Point, k: int)
    requires
        0 <= k < screens.len(),
        screens[k].frame.strictly_inside(p),
        forall|j: int| j != k ==> !holds_at(screens, p, j),
    ensures
        monitor_under(screens, p) matches Some(m) && {
            let s = screens[k];
            &&& m.name == s.name
            &&& m.scale_factor == s.scale_factor
            &&& m.position.x == clamp_i32(s.scale_factor.times(s.frame.origin.x as int))
            &&& m.position.y == clamp_i32(s.scale_factor.times(s.frame.origin.y as int))
            &&& m.size.width == clamp_u32(s.scale_factor.times(s.frame.size.width as int))
            &&& m.size.height == clamp_u32(s.scale_factor.times(s.frame.size.height as int))
        },
{
    lemma_strictly_inside_holds(screens[k].frame, p, false);
    lemma_sole_holder_is_found(screens, p, k);
}

/// With two displays that touch side by side, a pointer on their common edge
/// is found on exactly one of them, the right one, in whichever order the two
/// were reported.
pub proof fn lemma_seam_side_by_side_finds_one(
    screens: Seq<Screen>,
    p: Point,
    left: int,
    right: int,
)
    requires
        screens.len() == 2,
        (left == 0 && right == 1) || (left == 1 && right == 0),
        screens[left].frame.max_x() == screens[right].frame.min_x(),
        screens[right].frame.size.width > 0,
        p.x == screens[right].frame.min_x(),
        screens[right].frame.spans_y(p.y as int, false),
    ensures
        holds_at(screens, p, right),
        !holds_at(screens, p, left),
        monitor_under(screens, p) == Some(screens[right].monitor()),
{
    lemma_seam_side_by_side(screens[left].frame, screens[right].frame, p, false);
    lemma_sole_holder_is_found(screens, p, right);
}

/// With two displays that touch one above the other, a pointer on their common
/// edge is found on exactly one of them, the lower one, in whichever order the
/// two were reported.
pub proof fn lemma_seam_stacked_finds_one(screens: Seq<Screen>, p: Point, low: int, high: int)
    requires
        screens.len() == 2,
        (low == 0 && high == 1) || (low == 1 && high == 0),
        screens[low].frame.max_y() == screens[high].frame.min_y(),
        screens[low].frame.size.height > 0,
        screens[high].frame.size.height > 0,
        p.y == screens[high].frame.min_y(),
        screens[low].frame.spans_x(p.x as int),
        screens[high].frame.spans_x(p.x as int),
    ensures
        holds_at(screens, p, low),
        !holds_at(screens, p, high),
        monitor_under(screens, p) == Some(screens[low].monitor()),
{
    lemma_seam_stacked(screens[low].frame, screens[high].frame, p, false);
    lemma_sole_holder_is_found(screens, p, low);
}

/// Where several displays hold the pointer, the one reported first is found.
pub proof fn lemma_first_reported_wins(screens: Seq<Screen>, p: Point)
    requires
        holds_at(screens, p, 0),
    ensures
        monitor_under(screens, p) == Some(screens[0].monitor()),
{
    assert(first_holding(screens, p, 0));
    lemma_index_under_is(screens, p, 0);
}

/// On a display whose scale factor is a whole number `k`, the change of unit
/// loses nothing: as long as the frame in device pixels fits the snapshot's
/// fields, the snapshot's frame in logical units is the display's frame again.
pub proof fn lemma_whole_scale_keeps_frame(screen: Screen, k: int)
    requires
        screen.scale_factor.valid(),
        k >= 1,
        screen.scale_factor.numer() == k * screen.scale_factor.denom(),
        i32::MIN <= screen.frame.origin.x * k <= i32::MAX,
        i32::MIN <= screen.frame.origin.y * k <= i32::MAX,
        screen.frame.size.width * k <= u32::MAX,
        screen.frame.size.height * k <= u32::MAX,
    ensures
        screen.monitor().frame() == screen.frame,
{
    let s = screen.scale_factor;
    lemma_scale_round_trip(s, k, screen.frame.origin.x as int);
    lemma_scale_round_trip(s, k, screen.frame.origin.y as int);
    lemma_scale_round_trip(s, k, screen.frame.size.width as int);
    lemma_scale_round_trip(s, k, screen.frame.size.height as int);
    assert(screen.frame.size.width * k >= 0) by (nonlinear_arith)
        requires
            screen.frame.size.width >= 0,
            k > 0,
    ;
    assert(screen.frame.size.height * k >= 0) by (nonlinear_arith)
        requires
            screen.frame.size.height >= 0,
            k > 0,
    ;
}

/// The frame of a snapshot, in logical units, starts where any offset by the
/// extent of a window or of a display stays in range.
pub proof fn lemma_frame_has_room(monitor: Monitor)
    requires
        monitor.scale_factor.valid(),
    ensures
        monitor.frame().origin.has_room(),
{
    lemma_divides_bound(monitor.scale_factor, monitor.position.x as int);
    lemma_divides_bound(monitor.scale_factor, monitor.position.y as int);
}

/// A device-pixel coordinate in logical units is at most the coordinate times
/// the largest denominator, either way.
proof fn lemma_divides_bound(s: ScaleFactor, v: int)
    requires
        s.valid(),
        i32::MIN <= v <= i32::MAX,
    ensures
        -0x8000_0000_0000 <= s.divides(v) <= 0x8000_0000_0000,
{
    let n = s.numer();
    let d = s.denom();
    if v >= 0 {
        assert(0 <= (v * d) / n <= 0x8000_0000 * 0x1_0000) by (nonlinear_arith)
            requires
                0 <= v <= 0x8000_0000,
                0 < d <= 0x1_0000,
                n >= 1,
        ;
    } else {
        assert(0 <= (-(v * d)) / n <= 0x8000_0000 * 0x1_0000) by (nonlinear_arith)
            requires
                -0x8000_0000 <= v < 0,
                0 < d <= 0x1_0000,
                n >= 1,
        ;
        assert(v * d < 0) by (nonlinear_arith)
            requires
                v < 0,
                d > 0,
        ;
    }
}

/// Finds the display that holds the pointer: the first, in the order in which
/// the displays were reported, whose frame holds `mouse_location`. Nothing is
/// found when no frame holds it, as can happen while displays are being
/// rearranged, or when no display is attached.
pub fn get_monitor_with_cursor(mouse_location: Point, screens: &Vec<Screen>) -> (found: Option<
    Monitor,
>)
    ensures
        found == monitor_under(screens@, mouse_location),
{
    let mut i: usize = 0;
    while i < screens.len()
        invariant
            i <= screens.len(),
            forall|j: int| 0 <= j < i ==> !holds_at(screens@, mouse_location, j),
        decreases screens.len() - i,
    {
        if mouse_in_rect(mouse_location, screens[i].frame, false) {
            proof {
                assert(first_holding(screens@, mouse_location, i as int));
                lemma_index_under_is(screens@, mouse_location, i as int);
            }
            return Some(screens[i].to_monitor());
        }
        i += 1;
    }
    proof {
        lemma_none_under(screens@, mouse_location);
    }
    None
}

} // verus!
