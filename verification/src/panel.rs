//! The life cycle of a non-activating overlay panel.
//!
//! A [`Panel`] stands for one window of the windowing system that has been, or
//! is about to be, turned into a panel. It keeps no handle: each request
//! moves the panel to its next state and hands back the native calls that the
//! caller is to make, in order. What the windowing system knows better (whether
//! the panel is visible right now) the caller passes in.

use vstd::prelude::*;
use crate::geometry::{Point, Rect};
use crate::monitor::{monitor_under, Screen};
use crate::placement::{apply_placement, PlacementRule};
use crate::text::same_text;

verus! {

/// The style bit that keeps a panel from bringing its application to the
/// front when it is shown.
pub const NON_ACTIVATING_PANEL: i32 = 128;

/// Where a panel stands in its life.
#[derive(Clone, Copy, Debug, PartialEq, Eq, Structural)]
pub enum PanelState {
    /// An ordinary window that has not been turned into a panel yet.
    Uninitialized,
    /// Turned into a panel and never shown.
    Configured,
    /// Ordered out of the visible window list, not destroyed.
    Hidden,
    /// Visible, without the keyboard.
    Shown,
    /// Visible, and the window that receives the keyboard.
    ShownKey,
    /// Closed; its window has been released.
    Closed,
}

/// Whether showing a panel may bring its application to the front.
#[derive(Clone, Copy, Debug, PartialEq, Eq, Structural)]
pub enum ActivationStyle {
    NonActivating,
    Activating,
}

/// What a panel is set up with, once.
#[derive(Clone, Copy, Debug, PartialEq, Eq, Structural)]
pub struct PanelConfig {
    pub activation: ActivationStyle,
    /// The panel takes the keyboard only when a caller asks for it.
    pub becomes_key_only_if_needed: bool,
    /// The panel is hidden when it loses the keyboard.
    pub hide_on_resign_key: bool,
}

/// A native call on the panel's window, for the caller to make.
#[derive(Clone, Copy, Debug, PartialEq, Eq, Structural)]
pub enum PanelCall {
    /// Turn the window into a panel.
    ToPanel,
    /// Install the delegate that reports when the panel gains or loses the
    /// keyboard.
    SetDelegate,
    /// Set the window's style mask.
    SetStyleMask(i32),
    /// Set whether the panel takes the keyboard only when needed.
    SetBecomesKeyOnlyIfNeeded(bool),
    /// Set the window's frame, in one call.
    SetFrame(Rect),
    /// Make the panel visible, above other windows, without giving it the
    /// keyboard.
    OrderFrontRegardless,
    /// Allow or forbid the panel to become the key window.
    SetCanBecomeKey(bool),
    /// Give the panel the keyboard.
    MakeKeyWindow,
    /// Take the panel out of the visible window list.
    OrderOut,
    /// Set whether closing the window releases it.
    SetReleasedWhenClosed(bool),
    /// Close the window.
    Close,
    /// Show the window in the ordinary way.
    ShowWindow,
    /// Bring the window to the front and give it the focus.
    SetFocus,
    /// Let clicks pass through the window, or not.
    SetIgnoreCursorEvents(bool),
}

/// Why a request was refused.
#[derive(Clone, Copy, Debug, PartialEq, Eq, Structural)]
pub enum PanelError {
    /// The window has not been turned into a panel.
    NotConfigured,
    /// The window has been turned into a panel before.
    AlreadyConfigured,
    /// The panel is not visible.
    NotVisible,
    /// The panel has been closed.
    Closed,
}

/// What the delegate reports.
#[derive(Clone, Copy, Debug, PartialEq, Eq, Structural)]
pub enum DelegateEvent {
    /// The panel gained the keyboard.
    BecameKey,
    /// The panel lost the keyboard, because the user turned elsewhere.
    ResignedKey,
}

/// The name under which the delegate reports that the panel gained the
/// keyboard.
pub const WINDOW_DID_BECOME_KEY: &'static str = "window_did_become_key";

/// The name under which the delegate reports that the panel lost the keyboard.
pub const WINDOW_DID_RESIGN_KEY: &'static str = "window_did_resign_key";

/// The event that the delegate reports under `name`, if it is one of the two
/// that a panel listens to.
pub open spec fn event_named(name: Seq<char>) -> Option<DelegateEvent> {
    if name == WINDOW_DID_BECOME_KEY@ {
        Some(DelegateEvent::BecameKey)
    } else if name == WINDOW_DID_RESIGN_KEY@ {
        Some(DelegateEvent::ResignedKey)
    } else {
        None
    }
}

/// Reads the name of a delegate's report.
pub fn delegate_event(name: &str) -> (event: Option<DelegateEvent>)
    ensures
        event == event_named(name@),
{
    if same_text(name, WINDOW_DID_BECOME_KEY) {
        Some(DelegateEvent::BecameKey)
    } else if same_text(name, WINDOW_DID_RESIGN_KEY) {
        Some(DelegateEvent::ResignedKey)
    } else {
        None
    }
}

impl PanelState {
    /// Whether the panel is in the visible window list.
    pub open spec fn visible(self) -> bool {
        self is Shown || self is ShownKey
    }

    /// Whether the panel has been set up and not closed.
    pub open spec fn live(self) -> bool {
        self is Configured || self is Hidden || self is Shown || self is ShownKey
    }

    /// Why a request that needs a live panel is refused in this state. Asked
    /// only of a state that is not live.
    pub open spec fn refusal(self) -> PanelError {
        if self is Closed {
            PanelError::Closed
        } else {
            PanelError::NotConfigured
        }
    }
}

impl PanelConfig {
    /// The style mask that the configuration asks for.
    pub open spec fn style_mask(self) -> i32 {
        match self.activation {
            ActivationStyle::NonActivating => NON_ACTIVATING_PANEL,
            ActivationStyle::Activating => 0i32,
        }
    }

    /// The configuration of a panel that appears on demand and disappears when
    /// it loses the keyboard.
    pub open spec fn on_demand() -> PanelConfig {
        PanelConfig {
            activation: ActivationStyle::NonActivating,
            becomes_key_only_if_needed: true,
            hide_on_resign_key: true,
        }
    }
}

/// A panel as the contracts see it: its state and its configuration.
pub struct PanelModel {
    pub state: PanelState,
    pub config: PanelConfig,
}

impl PanelModel {
    /// The panel before it is set up.
    pub open spec fn fresh() -> PanelModel {
        PanelModel { state: PanelState::Uninitialized, config: PanelConfig::on_demand() }
    }

    /// Whether the panel is the key window.
    pub open spec fn is_key_window(self) -> bool {
        self.state is ShownKey
    }

    /// The same panel in another state.
    pub open spec fn in_state(self, state: PanelState) -> PanelModel {
        PanelModel { state, config: self.config }
    }

    /// The panel after it was set up with `config`.
    pub open spec fn configured(self, config: PanelConfig) -> Result<PanelModel, PanelError> {
        match self.state {
            PanelState::Uninitialized => Ok(PanelModel { state: PanelState::Configured, config }),
            PanelState::Closed => Err(PanelError::Closed),
            _ => Err(PanelError::AlreadyConfigured),
        }
    }

    /// The calls that set the panel up with `config`.
    pub open spec fn configure_calls(config: PanelConfig) -> Seq<PanelCall> {
        seq![
            PanelCall::ToPanel,
            PanelCall::SetDelegate,
            PanelCall::SetStyleMask(config.style_mask()),
            PanelCall::SetBecomesKeyOnlyIfNeeded(config.becomes_key_only_if_needed),
        ]
    }

    /// The panel after it was shown. With `make_key` it gets the keyboard too;
    /// without, a panel that has the keyboard keeps it.
    pub open spec fn shown(self, make_key: bool) -> Result<PanelModel, PanelError> {
        if !self.state.live() {
            Err(self.state.refusal())
        } else if make_key || self.state is ShownKey {
            Ok(self.in_state(PanelState::ShownKey))
        } else {
            Ok(self.in_state(PanelState::Shown))
        }
    }

    /// The calls that show a panel.
    pub open spec fn show_calls(make_key: bool) -> Seq<PanelCall> {
        if make_key {
            seq![
                PanelCall::OrderFrontRegardless,
                PanelCall::SetCanBecomeKey(true),
                PanelCall::MakeKeyWindow,
            ]
        } else {
            seq![PanelCall::OrderFrontRegardless, PanelCall::SetCanBecomeKey(false)]
        }
    }

    /// The panel after it was given the keyboard. Only a visible panel can
    /// take it.
    pub open spec fn promoted(self) -> Result<PanelModel, PanelError> {
        if !self.state.live() {
            Err(self.state.refusal())
        } else if !self.state.visible() {
            Err(PanelError::NotVisible)
        } else {
            Ok(self.in_state(PanelState::ShownKey))
        }
    }

    /// The calls that give a panel the keyboard.
    pub open spec fn promote_calls() -> Seq<PanelCall> {
        seq![PanelCall::SetCanBecomeKey(true), PanelCall::MakeKeyWindow]
    }

    /// The panel after it was hidden. A panel that was never shown stays as it
    /// is.
    pub open spec fn hidden(self) -> Result<PanelModel, PanelError> {
        if !self.state.live() {
            Err(self.state.refusal())
        } else if self.state.visible() {
            Ok(self.in_state(PanelState::Hidden))
        } else {
            Ok(self)
        }
    }

    /// The calls that hide a panel.
    pub open spec fn hide_calls() -> Seq<PanelCall> {
        seq![PanelCall::OrderOut]
    }

    /// The panel after a toggle, when the windowing system reports `visible`:
    /// a visible panel is hidden, any other is shown.
    pub open spec fn toggled(self, visible: bool, make_key: bool) -> Result<
        PanelModel,
        PanelError,
    > {
        if !self.state.live() {
            Err(self.state.refusal())
        } else if visible {
            Ok(self.in_state(PanelState::Hidden))
        } else {
            self.shown(make_key)
        }
    }

    /// The calls of a toggle.
    pub open spec fn toggle_calls(visible: bool, make_key: bool) -> Seq<PanelCall> {
        if visible {
            Self::hide_calls()
        } else {
            Self::show_calls(make_key)
        }
    }

    /// The panel after it was closed.
    pub open spec fn closed(self) -> PanelModel {
        self.in_state(PanelState::Closed)
    }

    /// The calls that close a panel: none for one that is closed already.
    pub open spec fn close_calls(self) -> Seq<PanelCall> {
        if self.state is Closed {
            Seq::empty()
        } else {
            seq![PanelCall::SetReleasedWhenClosed(true), PanelCall::Close]
        }
    }

    /// The panel after the delegate reported `event`. A panel that is not live
    /// stays as it is. A live panel that gained the keyboard is visible and
    /// has it. One that lost it is hidden if it is configured so, and else
    /// stays visible without the keyboard.
    pub open spec fn notified(self, event: DelegateEvent) -> PanelModel {
        if !self.state.live() {
            self
        } else {
            match event {
                DelegateEvent::BecameKey => self.in_state(PanelState::ShownKey),
                DelegateEvent::ResignedKey => if !self.state.visible() {
                    self
                } else if self.config.hide_on_resign_key {
                    self.in_state(PanelState::Hidden)
                } else {
                    self.in_state(PanelState::Shown)
                },
            }
        }
    }

    /// The calls that answer the delegate's report: the panel is ordered out
    /// when it lost the keyboard while visible and is configured to hide then.
    pub open spec fn notify_calls(self, event: DelegateEvent) -> Seq<PanelCall> {
        if self.state.visible() && event is ResignedKey && self.config.hide_on_resign_key {
            seq![PanelCall::OrderOut]
        } else {
            Seq::empty()
        }
    }

    /// The panel after `n` toggles in a row, each of which finds the panel as
    /// the one before left it.
    pub open spec fn toggled_times(self, n: nat, make_key: bool) -> Result<PanelModel, PanelError>
        decreases n,
    {
        if n == 0 {
            Ok(self)
        } else {
            match self.toggled(self.state.visible(), make_key) {
                Ok(next) => next.toggled_times((n - 1) as nat, make_key),
                Err(e) => Err(e),
            }
        }
    }
}

/// Toggling a hidden panel twice leaves it hidden, as it was.
pub proof fn lemma_toggle_twice(panel: PanelModel, make_key: bool)
    requires
        panel.state is Hidden,
    ensures
        panel.toggled(false, make_key) matches Ok(once) && once.state.visible() && once.toggled(
            true,
            make_key,
        ) == Ok::<PanelModel, PanelError>(panel),
        panel.toggled_times(2, make_key) == Ok::<PanelModel, PanelError>(panel),
{
    reveal_with_fuel(PanelModel::toggled_times, 3);
}

/// An even number of toggles leaves a hidden panel hidden, as it was.
pub proof fn lemma_even_toggles(panel: PanelModel, n: nat, make_key: bool)
    requires
        panel.state is Hidden,
        n % 2 == 0,
    ensures
        panel.toggled_times(n, make_key) == Ok::<PanelModel, PanelError>(panel),
    decreases n,
{
    if n > 0 {
        reveal_with_fuel(PanelModel::toggled_times, 3);
        lemma_even_toggles(panel, (n - 2) as nat, make_key);
    }
}

/// Closing never fails, and closing a closed panel changes nothing and asks
/// for no call.
pub proof fn lemma_close_idempotent(panel: PanelModel)
    ensures
        panel.closed().state is Closed,
        panel.closed().closed() == panel.closed(),
        panel.closed().close_calls() == Seq::<PanelCall>::empty(),
{
}

/// A closed panel stays closed: every request but closing is refused, closing
/// and the delegate's reports change nothing.
pub proof fn lemma_closed_is_final(
    panel: PanelModel,
    config: PanelConfig,
    visible: bool,
    make_key: bool,
    event: DelegateEvent,
)
    requires
        panel.state is Closed,
    ensures
        panel.configured(config) == Err::<PanelModel, PanelError>(PanelError::Closed),
        panel.shown(make_key) == Err::<PanelModel, PanelError>(PanelError::Closed),
        panel.promoted() == Err::<PanelModel, PanelError>(PanelError::Closed),
        panel.hidden() == Err::<PanelModel, PanelError>(PanelError::Closed),
        panel.toggled(visible, make_key) == Err::<PanelModel, PanelError>(PanelError::Closed),
        panel.notified(event) == panel,
        panel.notify_calls(event) == Seq::<PanelCall>::empty(),
        panel.closed() == panel,
{
}

/// No request and no report changes what a panel was set up with.
pub proof fn lemma_config_is_kept(
    panel: PanelModel,
    visible: bool,
    make_key: bool,
    event: DelegateEvent,
)
    ensures
        panel.shown(make_key) matches Ok(next) ==> next.config == panel.config,
        panel.promoted() matches Ok(next) ==> next.config == panel.config,
        panel.hidden() matches Ok(next) ==> next.config == panel.config,
        panel.toggled(visible, make_key) matches Ok(next) ==> next.config == panel.config,
        panel.notified(event).config == panel.config,
        panel.closed().config == panel.config,
{
}

/// A panel that is shown without being given the keyboard is not the key
/// window; once it is promoted, it is.
pub proof fn lemma_key_only_when_asked(panel: PanelModel)
    requires
        panel.state is Configured || panel.state is Hidden,
    ensures
        panel.shown(false) matches Ok(shown) && !shown.is_key_window() && shown.state.visible()
            && (shown.promoted() matches Ok(key) && key.is_key_window()),
{
}

/// One window on its way to being a panel, and the panel after that. There is
/// no way to copy it: the window has one owner.
#[derive(Debug)]
pub struct Panel {
    state: PanelState,
    config: PanelConfig,
}

impl View for Panel {
    type V = PanelModel;

    closed spec fn view(&self) -> PanelModel {
        PanelModel { state: self.state, config: self.config }
    }
}

impl PanelConfig {
    /// Computes [`PanelConfig::on_demand`].
    pub fn default_on_demand() -> (c: PanelConfig)
        ensures
            c == PanelConfig::on_demand(),
    {
        PanelConfig {
            activation: ActivationStyle::NonActivating,
            becomes_key_only_if_needed: true,
            hide_on_resign_key: true,
        }
    }

    /// Computes [`PanelConfig::style_mask`].
    pub fn mask(&self) -> (m: i32)
        ensures
            m == self.style_mask(),
    {
        match self.activation {
            ActivationStyle::NonActivating => NON_ACTIVATING_PANEL,
            ActivationStyle::Activating => 0,
        }
    }
}

impl Panel {
    /// A window that has not been turned into a panel yet.
    pub fn new() -> (p: Panel)
        ensures
            p@ == PanelModel::fresh(),
    {
        Panel { state: PanelState::Uninitialized, config: PanelConfig::default_on_demand() }
    }

    /// The panel's state.
    pub fn state(&self) -> (s: PanelState)
        ensures
            s == self@.state,
    {
        self.state
    }

    /// The panel's configuration.
    pub fn config(&self) -> (c: PanelConfig)
        ensures
            c == self@.config,
    {
        self.config
    }

    /// Whether the panel is visible, as far as its own requests and the
    /// delegate's reports tell.
    pub fn is_visible(&self) -> (v: bool)
        ensures
            v == self@.state.visible(),
    {
        match self.state {
            PanelState::Shown | PanelState::ShownKey => true,
            _ => false,
        }
    }

    /// Whether the panel is the key window.
    pub fn is_key_window(&self) -> (k: bool)
        ensures
            k == self@.is_key_window(),
    {
        match self.state {
            PanelState::ShownKey => true,
            _ => false,
        }
    }

    /// Whether the panel has been set up and not closed; if not, why a request
    /// is refused.
    fn check_live(&self) -> (r: Result<(), PanelError>)
        ensures
            r is Ok <==> self@.state.live(),
            r matches Err(e) ==> e == self@.state.refusal(),
    {
        match self.state {
            PanelState::Uninitialized => Err(PanelError::NotConfigured),
            PanelState::Closed => Err(PanelError::Closed),
            _ => Ok(()),
        }
    }

    /// Shows the panel, above other windows. With `make_key` the panel is
    /// given the keyboard as well; without, whatever had the keyboard keeps
    /// it. Refused, with the panel unchanged, unless the panel is live.
    pub fn show(&mut self, make_key: bool) -> (r: Result<Vec<PanelCall>, PanelError>)
        ensures
            match old(self)@.shown(make_key) {
                Ok(next) => r matches Ok(calls) && calls@ == PanelModel::show_calls(make_key)
                    && final(self)@ == next,
                Err(e) => r == Err::<Vec<PanelCall>, PanelError>(e) && final(self)@ == old(self)@,
            },
    {
        match self.check_live() {
            Err(e) => Err(e),
            Ok(()) => {
                let mut calls: Vec<PanelCall> = Vec::new();
                calls.push(PanelCall::OrderFrontRegardless);
                calls.push(PanelCall::SetCanBecomeKey(make_key));
                if make_key {
                    calls.push(PanelCall::MakeKeyWindow);
                    self.state = PanelState::ShownKey;
                } else if !self.is_key_window() {
                    self.state = PanelState::Shown;
                }
                assert(calls@ =~= PanelModel::show_calls(make_key));
                Ok(calls)
            },
        }
    }

    /// Gives the visible panel the keyboard. Refused, with the panel
    /// unchanged, unless the panel is live and visible.
    pub fn make_key_window(&mut self) -> (r: Result<Vec<PanelCall>, PanelError>)
        ensures
            match old(self)@.promoted() {
                Ok(next) => r matches Ok(calls) && calls@ == PanelModel::promote_calls()
                    && final(self)@ == next,
                Err(e) => r == Err::<Vec<PanelCall>, PanelError>(e) && final(self)@ == old(self)@,
            },
    {
        match self.check_live() {
            Err(e) => Err(e),
            Ok(()) => {
                if !self.is_visible() {
                    return Err(PanelError::NotVisible);
                }
                let mut calls: Vec<PanelCall> = Vec::new();
                calls.push(PanelCall::SetCanBecomeKey(true));
                calls.push(PanelCall::MakeKeyWindow);
                self.state = PanelState::ShownKey;
                assert(calls@ =~= PanelModel::promote_calls());
                Ok(calls)
            },
        }
    }

    /// Takes the panel out of the visible window list without destroying it.
    /// Refused, with the panel unchanged, unless the panel is live.
    pub fn order_out(&mut self) -> (r: Result<Vec<PanelCall>, PanelError>)
        ensures
            match old(self)@.hidden() {
                Ok(next) => r matches Ok(calls) && calls@ == PanelModel::hide_calls()
                    && final(self)@ == next,
                Err(e) => r == Err::<Vec<PanelCall>, PanelError>(e) && final(self)@ == old(self)@,
            },
    {
        match self.check_live() {
            Err(e) => Err(e),
            Ok(()) => {
                let mut calls: Vec<PanelCall> = Vec::new();
                calls.push(PanelCall::OrderOut);
                if self.is_visible() {
                    self.state = PanelState::Hidden;
                }
                assert(calls@ =~= PanelModel::hide_calls());
                Ok(calls)
            },
        }
    }

    /// Hides the panel if the windowing system reports it `visible`, and shows
    /// it if not. Refused, with the panel unchanged, unless the panel is live.
    pub fn toggle(&mut self, visible: bool, make_key: bool) -> (r: Result<
        Vec<PanelCall>,
        PanelError,
    >)
        ensures
            match old(self)@.toggled(visible, make_key) {
                Ok(next) => r matches Ok(calls) && calls@ == PanelModel::toggle_calls(
                    visible,
                    make_key,
                ) && final(self)@ == next,
                Err(e) => r == Err::<Vec<PanelCall>, PanelError>(e) && final(self)@ == old(self)@,
            },
    {
        match self.check_live() {
            Err(e) => Err(e),
            Ok(()) => {
                if visible {
                    let mut calls: Vec<PanelCall> = Vec::new();
                    calls.push(PanelCall::OrderOut);
                    self.state = PanelState::Hidden;
                    assert(calls@ =~= PanelModel::hide_calls());
                    Ok(calls)
                } else {
                    self.show(make_key)
                }
            },
        }
    }

    /// Closes the panel and releases its window. This never fails; on a panel
    /// that is closed already it does nothing.
    pub fn close(&mut self) -> (calls: Vec<PanelCall>)
        ensures
            calls@ == old(self)@.close_calls(),
            final(self)@ == old(self)@.closed(),
    {
        let mut calls: Vec<PanelCall> = Vec::new();
        match self.state {
            PanelState::Closed => {},
            _ => {
                calls.push(PanelCall::SetReleasedWhenClosed(true));
                calls.push(PanelCall::Close);
                self.state = PanelState::Closed;
            },
        }
        assert(calls@ =~= old(self)@.close_calls());
        calls
    }

    /// Takes in what the delegate reported and hands back the calls that
    /// answer it.
    pub fn notify(&mut self, event: DelegateEvent) -> (calls: Vec<PanelCall>)
        ensures
            calls@ == old(self)@.notify_calls(event),
            final(self)@ == old(self)@.notified(event),
    {
        let mut calls: Vec<PanelCall> = Vec::new();
        let live = self.check_live().is_ok();
        if live {
            match event {
                DelegateEvent::BecameKey => {
                    self.state = PanelState::ShownKey;
                },
                DelegateEvent::ResignedKey => {
                    if self.is_visible() {
                        if self.config.hide_on_resign_key {
                            calls.push(PanelCall::OrderOut);
                            self.state = PanelState::Hidden;
                        } else {
                            self.state = PanelState::Shown;
                        }
                    }
                },
            }
        }
        assert(calls@ =~= old(self)@.notify_calls(event));
        calls
    }
}

/// The rectangle that `rule` gives a window with the frame `win_frame` on the
/// display under the pointer, if a display holds the pointer.
pub open spec fn placed_frame(
    screens: Seq<Screen>,
    mouse_location: Point,
    win_frame: Rect,
    rule: PlacementRule,
) -> Option<Rect> {
    match monitor_under(screens, mouse_location) {
        Some(monitor) => Some(rule.frame_for(monitor.frame(), win_frame.size)),
        None => None,
    }
}

/// The one call that sets a window's frame, or no call when there is no frame
/// to set.
pub open spec fn placement_calls(placed: Option<Rect>) -> Seq<PanelCall> {
    match placed {
        Some(frame) => seq![PanelCall::SetFrame(frame)],
        None => Seq::empty(),
    }
}

/// The calls that open a panel: the frame is set first, if a display holds the
/// pointer, and then the panel is shown.
pub open spec fn open_calls(
    screens: Seq<Screen>,
    mouse_location: Point,
    win_frame: Rect,
    rule: PlacementRule,
    make_key: bool,
) -> Seq<PanelCall> {
    placement_calls(placed_frame(screens, mouse_location, win_frame, rule))
        + PanelModel::show_calls(make_key)
}

/// Opens a panel: places its window, which has the frame `win_frame`, on the
/// display under the pointer by `rule`, then shows the panel, with the
/// keyboard if `make_key`. When no display holds the pointer the window stays
/// where it is and the panel is shown there. Refused, with the panel unchanged
/// and no call to make, unless the panel is live.
pub fn open_panel(
    panel: &mut Panel,
    mouse_location: Point,
    screens: &Vec<Screen>,
    win_frame: Rect,
    rule: PlacementRule,
    make_key: bool,
) -> (r: Result<Vec<PanelCall>, PanelError>)
    ensures
        match old(panel)@.shown(make_key) {
            Ok(next) => r matches Ok(calls) && calls@ == open_calls(
                screens@,
                mouse_location,
                win_frame,
                rule,
                make_key,
            ) && final(panel)@ == next,
            Err(e) => r == Err::<Vec<PanelCall>, PanelError>(e) && final(panel)@ == old(panel)@,
        },
{
    match panel.show(make_key) {
        Err(e) => Err(e),
        Ok(mut shown) => {
            let mut frame = win_frame;
            let mut calls: Vec<PanelCall> = Vec::new();
            if apply_placement(&mut frame, mouse_location, screens, rule) {
                calls.push(PanelCall::SetFrame(frame));
            }
            assert(calls@ =~= placement_calls(
                placed_frame(screens@, mouse_location, win_frame, rule),
            ));
            calls.append(&mut shown);
            Ok(calls)
        },
    }
}

/// Hides the panel if the windowing system reports it `visible`, and opens it
/// as [`open_panel`] does if not. Refused, with the panel unchanged and no
/// call to make, unless the panel is live.
pub fn toggle_panel(
    panel: &mut Panel,
    visible: bool,
    mouse_location: Point,
    screens: &Vec<Screen>,
    win_frame: Rect,
    rule: PlacementRule,
    make_key: bool,
) -> (r: Result<Vec<PanelCall>, PanelError>)
    ensures
        match old(panel)@.toggled(visible, make_key) {
            Ok(next) => r matches Ok(calls) && final(panel)@ == next && calls@ == (if visible {
                PanelModel::hide_calls()
            } else {
                open_calls(screens@, mouse_location, win_frame, rule, make_key)
            }),
            Err(e) => r == Err::<Vec<PanelCall>, PanelError>(e) && final(panel)@ == old(panel)@,
        },
{
    if visible {
        panel.toggle(true, make_key)
    } else {
        open_panel(panel, mouse_location, screens, win_frame, rule, make_key)
    }
}

/// Turns a window into a panel, once: the window becomes a panel, gets the
/// delegate that reports changes of focus, the style mask of `config` and its
/// becomes-key-only-if-needed flag. Refused, with the panel unchanged, when
/// the window has been set up before or has been closed.
pub fn init_as_panel(panel: &mut Panel, config: PanelConfig) -> (r: Result<
    Vec<PanelCall>,
    PanelError,
>)
    ensures
        match old(panel)@.configured(config) {
            Ok(next) => r matches Ok(calls) && calls@ == PanelModel::configure_calls(config)
                && final(panel)@ == next,
            Err(e) => r == Err::<Vec<PanelCall>, PanelError>(e) && final(panel)@ == old(panel)@,
        },
{
    match panel.state {
        PanelState::Uninitialized => {
            let mut calls: Vec<PanelCall> = Vec::new();
            calls.push(PanelCall::ToPanel);
            calls.push(PanelCall::SetDelegate);
            calls.push(PanelCall::SetStyleMask(config.mask()));
            calls.push(PanelCall::SetBecomesKeyOnlyIfNeeded(config.becomes_key_only_if_needed));
            panel.state = PanelState::Configured;
            panel.config = config;
            assert(calls@ =~= PanelModel::configure_calls(config));
            Ok(calls)
        },
        PanelState::Closed => Err(PanelError::Closed),
        _ => Err(PanelError::AlreadyConfigured),
    }
}

} // verus!
