//! Monitor-aware placement of overlay panels and the life cycle of such panels.
//!
//! The library holds the decisions of a small desktop overlay: which display
//! is under the pointer, where a window goes on that display, which native
//! calls a panel needs for each request, and how captured frames are framed
//! for the content layer. Talking to the windowing system is left to the
//! caller, who hands in plain values and carries out what comes back.
//!
//! All coordinates are whole numbers. Positions are `i64` (or `i32` for device
//! pixels), extents are `u32`, and a scale factor is a ratio of two positive
//! `u16`. Where a quotient is not whole it is cut toward zero, and a value
//! that does not fit the field it goes to is held to the field's range.
//!
//! - [`geometry`]: points, sizes, rectangles, and the point-in-rectangle test
//! - [`scale`]: scale factors and the change between logical units and device
//!   pixels
//! - [`monitor`]: finding the display under the pointer
//! - [`placement`]: the placement rules and the rectangle they give a window
//! - [`panel`]: the states of a panel and the native calls of each request
//! - [`widget`]: opening the always-visible corner widget
//! - [`tray`]: the tray menu and what a click on it asks for
//! - [`pointer`]: the notice of a pointer move
//! - [`screenshot`]: captured screens as base64 text
//! - [`text`]: comparing text and writing numbers

pub mod geometry;
pub mod scale;
pub mod monitor;
pub mod placement;
pub mod panel;
pub mod widget;
pub mod tray;
pub mod pointer;
pub mod screenshot;
pub mod text;
