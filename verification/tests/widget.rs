use intero::geometry::{Point, Rect, Size};
use intero::monitor::Screen;
use intero::panel::{
    init_as_panel, DelegateEvent, Panel, PanelCall, PanelError, PanelState,
};
use intero::scale::ScaleFactor;
use intero::widget::{
    open_widget_window, show_widget_window, widget_panel_config, widget_window_built,
    widget_window_options,
};

fn rect(x: i64, y: i64, width: u32, height: u32) -> Rect {
    Rect { origin: Point { x, y }, size: Size { width, height } }
}

fn one_display() -> Vec<Screen> {
    vec![Screen {
        name: Some("Main".to_string()),
        frame: rect(0, 0, 1440, 900),
        scale_factor: ScaleFactor::new(2, 1).unwrap(),
    }]
}

#[test]
fn existing_widget_window_is_shown_and_focused() {
    let opening = open_widget_window(true);
    assert_eq!(opening.build, None);
    assert_eq!(opening.calls, vec![PanelCall::ShowWindow, PanelCall::SetFocus]);
}

#[test]
fn missing_widget_window_is_to_be_built() {
    let opening = open_widget_window(false);
    assert_eq!(opening.calls, Vec::new());
    let options = opening.build.unwrap();
    assert_eq!(options, widget_window_options());
    assert_eq!(options.label, "widget");
    assert_eq!(options.url, "widget.html");
    assert_eq!(options.title, "Emojinie widget");
    assert!(!options.resizable);
    assert!(!options.decorations);
    assert!(options.transparent);
    assert!(options.always_on_top);
    assert!(!options.visible);
    assert_eq!(options.inner_size, Size { width: 600, height: 200 });
}

#[test]
fn show_widget_window_is_open_widget_window() {
    assert_eq!(show_widget_window(true).calls, open_widget_window(true).calls);
    assert_eq!(show_widget_window(true).build, None);
    assert_eq!(show_widget_window(false).build, open_widget_window(false).build);
    assert_eq!(show_widget_window(false).calls, Vec::new());
}

#[test]
fn built_widget_is_placed_in_the_corner_and_shown_without_key() {
    let mut panel = Panel::new();
    let calls = widget_window_built(
        &mut panel,
        Point { x: 10, y: 10 },
        &one_display(),
        rect(50, 60, 600, 200),
    )
    .unwrap();
    assert_eq!(
        calls,
        vec![
            PanelCall::SetIgnoreCursorEvents(true),
            PanelCall::SetFrame(rect(840, 0, 600, 200)),
            PanelCall::ToPanel,
            PanelCall::SetDelegate,
            PanelCall::SetStyleMask(128),
            PanelCall::SetBecomesKeyOnlyIfNeeded(true),
            PanelCall::OrderFrontRegardless,
            PanelCall::SetCanBecomeKey(false),
        ]
    );
    assert_eq!(panel.state(), PanelState::Shown);
    assert_eq!(panel.config(), widget_panel_config());
    assert!(!panel.is_key_window());
}

#[test]
fn built_widget_without_a_display_stays_where_it_is() {
    let mut panel = Panel::new();
    let calls = widget_window_built(
        &mut panel,
        Point { x: 10, y: 0 },
        &one_display(),
        rect(50, 60, 600, 200),
    )
    .unwrap();
    assert_eq!(calls.len(), 7);
    assert_eq!(calls[0], PanelCall::SetIgnoreCursorEvents(true));
    assert_eq!(calls[1], PanelCall::ToPanel);
    assert_eq!(panel.state(), PanelState::Shown);
}

#[test]
fn widget_stays_visible_when_it_loses_the_keyboard() {
    let mut panel = Panel::new();
    widget_window_built(&mut panel, Point { x: 10, y: 10 }, &one_display(), rect(0, 0, 600, 200))
        .unwrap();
    assert!(!widget_panel_config().hide_on_resign_key);
    panel.notify(DelegateEvent::BecameKey);
    assert_eq!(panel.notify(DelegateEvent::ResignedKey), Vec::new());
    assert_eq!(panel.state(), PanelState::Shown);
}

#[test]
fn widget_window_built_twice_is_refused() {
    let mut panel = Panel::new();
    init_as_panel(&mut panel, widget_panel_config()).unwrap();
    let r = widget_window_built(
        &mut panel,
        Point { x: 10, y: 10 },
        &one_display(),
        rect(0, 0, 600, 200),
    );
    assert_eq!(r, Err(PanelError::AlreadyConfigured));
    assert_eq!(panel.state(), PanelState::Configured);
    panel.close();
    let r = widget_window_built(
        &mut panel,
        Point { x: 10, y: 10 },
        &one_display(),
        rect(0, 0, 600, 200),
    );
    assert_eq!(r, Err(PanelError::Closed));
}
