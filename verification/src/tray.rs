//! The tray menu: what each entry asks for.

use vstd::prelude::*;
use crate::text::same_text;

verus! {

/// What a tray menu entry asks the application to do.
#[derive(Clone, Copy, Debug, PartialEq, Eq, Structural)]
pub enum TrayAction {
    /// Show the main window and give it the focus.
    ShowWindow,
    /// Stop the server, then start it again.
    RestartServer,
    /// Stop the server, then leave.
    Quit,
    /// Not an entry of the menu.
    Ignore,
}

/// The action behind a menu entry's id.
pub open spec fn menu_action_of(id: Seq<char>) -> TrayAction {
    if id == "open"@ {
        TrayAction::ShowWindow
    } else if id == "restart"@ {
        TrayAction::RestartServer
    } else if id == "quit"@ {
        TrayAction::Quit
    } else {
        TrayAction::Ignore
    }
}

/// Decides what a click on the menu entry `id` asks for.
pub fn menu_action(id: &str) -> (r: TrayAction)
    ensures
        r == menu_action_of(id@),
{
    if same_text(id, "open") {
        TrayAction::ShowWindow
    } else if same_text(id, "restart") {
        TrayAction::RestartServer
    } else if same_text(id, "quit") {
        TrayAction::Quit
    } else {
        TrayAction::Ignore
    }
}

} // verus!
