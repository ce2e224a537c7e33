//! The widget: a small always-visible overlay in the corner of the display
//! under the pointer.

use vstd::prelude::*;
use crate::geometry::{Point, Rect, Size};
use crate::monitor::{monitor_under, Screen};
use crate::panel::{
    init_as_panel, placement_calls, ActivationStyle, Panel, PanelCall, PanelConfig, PanelError,
    PanelModel, PanelState,
};
use crate::placement::{corner, corner_origin, position_window};

verus! {

/// What a new window is built with.
#[derive(Clone, Copy, Debug, PartialEq, Eq)]
pub struct WindowOptions {
    pub label: &'static str,
    pub url: &'static str,
    pub title: &'static str,
    pub resizable: bool,
    pub decorations: bool,
    pub transparent: bool,
    pub always_on_top: bool,
    pub visible: bool,
    pub inner_size: Size,
}

/// The first step of opening the widget.
#[derive(Debug)]
pub struct WidgetOpening {
    /// The options to build the widget's window with, when it does not exist
    /// yet. Once it is built, [`widget_window_built`] says how to go on.
    pub build: Option<WindowOptions>,
    /// The calls to make on the widget's window when it exists already.
    pub calls: Vec<PanelCall>,
}

/// The options that the widget's window is built with: no frame around it,
/// see-through, above other windows, and not visible until it has been placed.
pub open spec fn widget_options() -> WindowOptions {
    WindowOptions {
        label: "widget",
        url: "widget.html",
        title: "Emojinie widget",
        resizable: false,
        decorations: false,
        transparent: true,
        always_on_top: true,
        visible: false,
        inner_size: Size { width: 600, height: 200 },
    }
}

/// The widget's configuration: it never brings the application to the front,
/// takes the keyboard only when asked, and stays visible when it loses it.
pub open spec fn widget_config() -> PanelConfig {
    PanelConfig {
        activation: ActivationStyle::NonActivating,
        becomes_key_only_if_needed: true,
        hide_on_resign_key: false,
    }
}

/// The calls on a widget window that exists already.
pub open spec fn reveal_calls() -> Seq<PanelCall> {
    seq![PanelCall::ShowWindow, PanelCall::SetFocus]
}

/// The rectangle that puts the widget's window, which has the frame
/// `win_frame`, in the corner of the display under the pointer, if a display
/// holds the pointer.
pub open spec fn widget_frame(screens: Seq<Screen>, mouse_location: Point, win_frame: Rect)
    -> Option<Rect> {
    match monitor_under(screens, mouse_location) {
        Some(monitor) => Some(
            Rect { origin: corner_origin(monitor.frame(), win_frame.size), size: win_frame.size },
        ),
        None => None,
    }
}

/// The calls on a widget window that has just been built: clicks pass through
/// it, it is placed if a display holds the pointer, turned into a panel and
/// shown without the keyboard.
pub open spec fn built_calls(screens: Seq<Screen>, mouse_location: Point, win_frame: Rect) -> Seq<
    PanelCall,
> {
    seq![PanelCall::SetIgnoreCursorEvents(true)] + placement_calls(
        widget_frame(screens, mouse_location, win_frame),
    ) + PanelModel::configure_calls(widget_config()) + PanelModel::show_calls(false)
}

/// Computes [`widget_options`].
pub fn widget_window_options() -> (options: WindowOptions)
    ensures
        options == widget_options(),
{
    WindowOptions {
        label: "widget",
        url: "widget.html",
        title: "Emojinie widget",
        resizable: false,
        decorations: false,
        transparent: true,
        always_on_top: true,
        visible: false,
        inner_size: Size { width: 600, height: 200 },
    }
}

/// Computes [`widget_config`].
pub fn widget_panel_config() -> (config: PanelConfig)
    ensures
        config == widget_config(),
{
    PanelConfig {
        activation: ActivationStyle::NonActivating,
        becomes_key_only_if_needed: true,
        hide_on_resign_key: false,
    }
}

/// Opens the widget. `existing` says whether the widget's window exists. If it
/// does, it is shown and given the focus. If not, it is to be built.
pub fn open_widget_window(existing: bool) -> (opening: WidgetOpening)
    ensures
        existing ==> opening.build is None && opening.calls@ == reveal_calls(),
        !existing ==> opening.build == Some(widget_options()) && opening.calls@.len() == 0,
{
    let mut calls: Vec<PanelCall> = Vec::new();
    if existing {
        calls.push(PanelCall::ShowWindow);
        calls.push(PanelCall::SetFocus);
        assert(calls@ =~= reveal_calls());
        WidgetOpening { build: None, calls }
    } else {
        WidgetOpening { build: Some(widget_window_options()), calls }
    }
}

/// Shows the widget: the same as [`open_widget_window`].
pub fn show_widget_window(existing: bool) -> (opening: WidgetOpening)
    ensures
        existing ==> opening.build is None && opening.calls@ == reveal_calls(),
        !existing ==> opening.build == Some(widget_options()) && opening.calls@.len() == 0,
{
    open_widget_window(existing)
}

/// Goes on after the widget's window has been built. `panel` stands for the
/// new window, which has the frame `win_frame`. Clicks are let through the
/// window, it is put in the corner of the display under the pointer, if one
/// holds it, turned into a panel with the widget's configuration and shown
/// without the keyboard. Refused, with the panel unchanged and no call to
/// make, when `panel` is not a window that is yet to be set up.
pub fn widget_window_built(
    panel: &mut Panel,
    mouse_location: Point,
    screens: &Vec<Screen>,
    win_frame: Rect,
) -> (r: Result<Vec<PanelCall>, PanelError>)
    ensures
        match old(panel)@.configured(widget_config()) {
            Ok(next) => r matches Ok(calls) && calls@ == built_calls(
                screens@,
                mouse_location,
                win_frame,
            ) && final(panel)@ == next.in_state(PanelState::Shown),
            Err(e) => r == Err::<Vec<PanelCall>, PanelError>(e) && final(panel)@ == old(panel)@,
        },
{
    let mut setup = match init_as_panel(panel, widget_panel_config()) {
        Err(e) => {
            return Err(e);
        },
        Ok(setup) => setup,
    };
    let mut calls: Vec<PanelCall> = Vec::new();
    calls.push(PanelCall::SetIgnoreCursorEvents(true));
    match position_window(mouse_location, screens, win_frame, corner) {
        Some(frame) => {
            calls.push(PanelCall::SetFrame(frame));
        },
        None => {},
    }
    assert(calls@ =~= seq![PanelCall::SetIgnoreCursorEvents(true)] + placement_calls(
        widget_frame(screens@, mouse_location, win_frame),
    ));
    calls.append(&mut setup);
    match panel.show(false) {
        Ok(mut shown) => {
            calls.append(&mut shown);
            Ok(calls)
        },
        Err(e) => Err(e),
    }
}

} // verus!
