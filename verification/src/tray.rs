//! What a click on a tray menu item asks for.

use vstd::prelude::*;
use crate::text::same_text;

verus! {

/// The identifier of the menu item that opens the panel.
pub const OPEN: &'static str = "open";

/// The identifier of the menu item that toggles the panel.
pub const TOGGLE: &'static str = "toggle";

/// The identifier of the menu item that ends the application.
pub const QUIT: &'static str = "quit";

/// One item of the tray menu: its identifier and the title it shows.
#[derive(Clone, Copy, Debug, PartialEq, Eq)]
pub struct MenuItem {
    pub id: &'static str,
    pub title: &'static str,
}

/// The items of the tray menu, from the top.
pub open spec fn menu() -> Seq<MenuItem> {
    seq![MenuItem { id: OPEN, title: "Open Intero" }, MenuItem { id: QUIT, title: "Quit" }]
}

/// Computes [`menu`].
pub fn make_tray() -> (items: Vec<MenuItem>)
    ensures
        items@ == menu(),
{
    let mut items: Vec<MenuItem> = Vec::new();
    items.push(MenuItem { id: OPEN, title: "Open Intero" });
    items.push(MenuItem { id: QUIT, title: "Quit" });
    assert(items@ =~= menu());
    items
}

/// What the application is to do after a click on a tray menu item.
#[derive(Clone, Copy, Debug, PartialEq, Eq, Structural)]
pub enum TrayCommand {
    /// End the application.
    Quit,
    /// Open the main panel.
    Open,
    /// Toggle the main panel.
    Toggle,
    /// Nothing: the item is not one of the three.
    Ignore,
}

/// The command that the menu item with the identifier `id` stands for.
pub open spec fn command_of(id: Seq<char>) -> TrayCommand {
    if id == QUIT@ {
        TrayCommand::Quit
    } else if id == OPEN@ {
        TrayCommand::Open
    } else if id == TOGGLE@ {
        TrayCommand::Toggle
    } else {
        TrayCommand::Ignore
    }
}

/// Reads a click on the tray menu item with the identifier `id`.
pub fn handle_tray_event(id: &str) -> (command: TrayCommand)
    ensures
        command == command_of(id@),
{
    if same_text(id, QUIT) {
        TrayCommand::Quit
    } else if same_text(id, OPEN) {
        TrayCommand::Open
    } else if same_text(id, TOGGLE) {
        TrayCommand::Toggle
    } else {
        TrayCommand::Ignore
    }
}

} // verus!
