//! What the content layer is told when the pointer moves.

use vstd::prelude::*;
use crate::geometry::{Point, Rect};

verus! {

/// The notice of one move of the pointer: where the pointer is on the screen,
/// and the frame of the window that the content lives in.
#[derive(Clone, Copy, Debug, PartialEq, Eq, Structural)]
pub struct MouseMoved {
    pub x: i64,
    pub y: i64,
    pub window_x: i64,
    pub window_y: i64,
    pub window_width: u32,
    pub window_height: u32,
}

/// The notice for a pointer at `screen_location` and a window with the frame
/// `frame`.
pub open spec fn notice(screen_location: Point, frame: Rect) -> MouseMoved {
    MouseMoved {
        x: screen_location.x,
        y: screen_location.y,
        window_x: frame.origin.x,
        window_y: frame.origin.y,
        window_width: frame.size.width,
        window_height: frame.size.height,
    }
}

/// Makes the notice of one move of the pointer. An event that belongs to no
/// window reports its location on the screen already. One that belongs to a
/// window (`in_window`) reports it relative to that window, and `to_screen`
/// is called, once, to have it on the screen. `frame` is the frame of the
/// window that the content lives in.
pub fn mouse_moved<F>(event_location: Point, in_window: bool, to_screen: F, frame: Rect) -> (moved:
    MouseMoved) where F: Fn(Point) -> Point
    requires
        in_window ==> call_requires(to_screen, (event_location,)),
    ensures
        !in_window ==> moved == notice(event_location, frame),
        in_window ==> call_ensures(
            to_screen,
            (event_location,),
            Point { x: moved.x, y: moved.y },
        ) && moved == notice(Point { x: moved.x, y: moved.y }, frame),
{
    let screen_location = if in_window {
        to_screen(event_location)
    } else {
        event_location
    };
    MouseMoved {
        x: screen_location.x,
        y: screen_location.y,
        window_x: frame.origin.x,
        window_y: frame.origin.y,
        window_width: frame.size.width,
        window_height: frame.size.height,
    }
}

} // verus!
