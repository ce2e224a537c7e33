use std::fmt::Debug;

use intero::geometry::{Point, Rect, Size};
use intero::monitor::Screen;
use intero::panel::{
    delegate_event, init_as_panel, open_panel, toggle_panel, DelegateEvent, Panel, PanelCall,
    PanelConfig, PanelError, PanelState,
};
use intero::placement::PlacementRule;
use intero::scale::ScaleFactor;
use intero::tray::{handle_tray_event, TrayCommand};
use intero::widget::{open_widget_window, widget_window_built};

/// A stand-in for one window of the windowing system: it carries out the
/// calls it is given and remembers what a real window would.
#[derive(Debug, PartialEq)]
struct FakeWindow {
    frame: Rect,
    is_panel: bool,
    has_delegate: bool,
    style_mask: i32,
    visible: bool,
    key: bool,
    can_become_key: bool,
    ignores_cursor: bool,
    closed: bool,
    frames_set: u32,
}

impl FakeWindow {
    fn new(frame: Rect) -> FakeWindow {
        FakeWindow {
            frame,
            is_panel: false,
            has_delegate: false,
            style_mask: 0,
            visible: false,
            key: false,
            can_become_key: true,
            ignores_cursor: false,
            closed: false,
            frames_set: 0,
        }
    }

    fn perform(&mut self, calls: &[PanelCall]) {
        for call in calls {
            assert!(!self.closed, "call {call:?} on a closed window");
            match *call {
                PanelCall::ToPanel => self.is_panel = true,
                PanelCall::SetDelegate => self.has_delegate = true,
                PanelCall::SetStyleMask(mask) => self.style_mask = mask,
                PanelCall::SetBecomesKeyOnlyIfNeeded(_) => {}
                PanelCall::SetFrame(frame) => {
                    self.frame = frame;
                    self.frames_set += 1;
                }
                PanelCall::OrderFrontRegardless | PanelCall::ShowWindow => self.visible = true,
                PanelCall::SetCanBecomeKey(able) => self.can_become_key = able,
                PanelCall::MakeKeyWindow => {
                    assert!(self.visible && self.can_become_key);
                    self.key = true;
                }
                PanelCall::SetFocus => self.key = self.visible,
                PanelCall::OrderOut => {
                    self.visible = false;
                    self.key = false;
                }
                PanelCall::SetReleasedWhenClosed(_) => {}
                PanelCall::Close => {
                    self.visible = false;
                    self.key = false;
                    self.closed = true;
                }
                PanelCall::SetIgnoreCursorEvents(ignore) => self.ignores_cursor = ignore,
            }
        }
    }
}

fn run<E: Debug>(
    window: &mut FakeWindow,
    panel: &mut Panel,
    request: impl FnOnce(&mut Panel) -> Result<Vec<PanelCall>, E>,
) {
    let calls = request(panel).unwrap();
    window.perform(&calls);
    assert_eq!(window.visible, panel.is_visible());
    assert_eq!(window.key, panel.is_key_window());
    assert_eq!(window.closed, panel.state() == PanelState::Closed);
}

fn rect(x: i64, y: i64, width: u32, height: u32) -> Rect {
    Rect { origin: Point { x, y }, size: Size { width, height } }
}

fn desk() -> Vec<Screen> {
    vec![
        Screen {
            name: Some("Left".to_string()),
            frame: rect(-1920, 0, 1920, 1080),
            scale_factor: ScaleFactor::one(),
        },
        Screen {
            name: Some("Main".to_string()),
            frame: rect(0, 0, 1440, 900),
            scale_factor: ScaleFactor::new(2000, 1000).unwrap(),
        },
    ]
}

#[test]
fn main_panel_follows_the_pointer_across_displays() {
    let screens = desk();
    let whole = PlacementRule::Fullscreen(ScaleFactor::one());
    let mut window = FakeWindow::new(rect(100, 100, 800, 600));
    let mut panel = Panel::new();
    run(&mut window, &mut panel, |p| init_as_panel(p, PanelConfig::default_on_demand()));
    assert!(window.is_panel && window.has_delegate);
    assert_eq!(window.style_mask, 128);

    let frame = window.frame;
    run(&mut window, &mut panel, |p| {
        open_panel(p, Point { x: 700, y: 450 }, &screens, frame, whole, true)
    });
    assert_eq!(window.frame, rect(0, 0, 1440, 900));
    assert!(window.key);

    let event = delegate_event("window_did_resign_key").unwrap();
    run(&mut window, &mut panel, |p| Ok::<_, PanelError>(p.notify(event)));
    assert!(!window.visible);
    assert_eq!(panel.state(), PanelState::Hidden);

    let (visible, frame) = (window.visible, window.frame);
    run(&mut window, &mut panel, |p| {
        toggle_panel(p, visible, Point { x: -5, y: 1 }, &screens, frame, whole, true)
    });
    assert_eq!(window.frame, rect(-1920, 0, 1920, 1080));
    assert!(window.visible && window.key);

    let (visible, frame) = (window.visible, window.frame);
    run(&mut window, &mut panel, |p| {
        toggle_panel(p, visible, Point { x: -5, y: 1 }, &screens, frame, whole, true)
    });
    assert!(!window.visible);
    assert_eq!(window.frame, rect(-1920, 0, 1920, 1080));

    let (visible, frame) = (window.visible, window.frame);
    run(&mut window, &mut panel, |p| {
        toggle_panel(p, visible, Point { x: 9000, y: 1 }, &screens, frame, whole, false)
    });
    assert!(window.visible && !window.key);
    assert_eq!(window.frame, rect(-1920, 0, 1920, 1080));
    assert_eq!(window.frames_set, 2);

    run(&mut window, &mut panel, |p| p.make_key_window());
    assert!(window.key);
    run(&mut window, &mut panel, |p| p.order_out());
    run(&mut window, &mut panel, |p| Ok::<_, PanelError>(p.close()));
    assert!(window.closed);
    run(&mut window, &mut panel, |p| Ok::<_, PanelError>(p.close()));
    assert_eq!(
        open_panel(&mut panel, Point { x: 1, y: 1 }, &screens, window.frame, whole, true),
        Err(PanelError::Closed)
    );
}

#[test]
fn widget_is_built_once_and_then_revealed() {
    let screens = desk();
    let opening = open_widget_window(false);
    let options = opening.build.unwrap();
    let size = options.inner_size;
    let mut window = FakeWindow::new(rect(0, 0, size.width, size.height));
    window.visible = options.visible;
    window.perform(&opening.calls);
    let mut panel = Panel::new();
    let frame = window.frame;
    run(&mut window, &mut panel, |p| {
        widget_window_built(p, Point { x: 100, y: 100 }, &screens, frame)
    });
    assert_eq!(window.frame, rect(840, 0, 600, 200));
    assert!(window.ignores_cursor && window.is_panel && window.visible && !window.key);
    assert!(!window.can_become_key);

    run(&mut window, &mut panel, |p| Ok::<_, ()>(p.notify(DelegateEvent::ResignedKey)));
    assert!(window.visible);

    let opening = open_widget_window(true);
    assert!(opening.build.is_none());
    window.perform(&opening.calls);
    assert!(window.visible);
    assert_eq!(window.frames_set, 1);
}

#[test]
fn tray_clicks_drive_the_main_panel() {
    let screens = desk();
    let centered = PlacementRule::Centered;
    let mut window = FakeWindow::new(rect(0, 0, 400, 300));
    let mut panel = Panel::new();
    run(&mut window, &mut panel, |p| init_as_panel(p, PanelConfig::default_on_demand()));
    let mut quit = false;
    for id in ["open", "toggle", "settings", "toggle", "toggle", "quit"] {
        let (visible, frame) = (window.visible, window.frame);
        let pointer = Point { x: 720, y: 450 };
        match handle_tray_event(id) {
            TrayCommand::Open => run(&mut window, &mut panel, |p| {
                open_panel(p, pointer, &screens, frame, centered, true)
            }),
            TrayCommand::Toggle => run(&mut window, &mut panel, |p| {
                toggle_panel(p, visible, pointer, &screens, frame, centered, true)
            }),
            TrayCommand::Quit => quit = true,
            TrayCommand::Ignore => {}
        }
    }
    assert!(quit);
    assert!(!window.visible);
    assert_eq!(panel.state(), PanelState::Hidden);
    assert_eq!(window.frame, rect(520, 300, 400, 300));
}
