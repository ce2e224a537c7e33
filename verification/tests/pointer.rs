use std::cell::Cell;

use intero::geometry::{Point, Rect, Size};
use intero::pointer::{mouse_moved, MouseMoved};

fn frame() -> Rect {
    Rect { origin: Point { x: 840, y: 0 }, size: Size { width: 600, height: 200 } }
}

#[test]
fn move_outside_any_window_is_on_the_screen_already() {
    let calls = Cell::new(0u32);
    let moved = mouse_moved(
        Point { x: 12, y: -34 },
        false,
        |p: Point| {
            calls.set(calls.get() + 1);
            Point { x: p.x + 1000, y: p.y + 1000 }
        },
        frame(),
    );
    assert_eq!(
        moved,
        MouseMoved {
            x: 12,
            y: -34,
            window_x: 840,
            window_y: 0,
            window_width: 600,
            window_height: 200,
        }
    );
    assert_eq!(calls.get(), 0);
}

#[test]
fn move_inside_a_window_is_brought_to_the_screen_once() {
    let calls = Cell::new(0u32);
    let moved = mouse_moved(
        Point { x: 12, y: 34 },
        true,
        |p: Point| {
            calls.set(calls.get() + 1);
            Point { x: p.x + 300, y: p.y + 500 }
        },
        frame(),
    );
    assert_eq!(
        moved,
        MouseMoved {
            x: 312,
            y: 534,
            window_x: 840,
            window_y: 0,
            window_width: 600,
            window_height: 200,
        }
    );
    assert_eq!(calls.get(), 1);
}
