//! What the tray menu and the window close button do.
use vstd::prelude::*;

use crate::text::same_text;

verus! {

/// What a tray menu item does.
#[derive(Clone, Copy, Debug, PartialEq, Eq, Structural)]
pub enum MenuAction {
    /// Show and focus the main window.
    ShowMain,
    /// Quit the application.
    Quit,
    /// Nothing.
    Ignore,
}

/// What the tray menu item with id `id` does.
pub fn menu_action(id: &str) -> (a: MenuAction)
    ensures
        a == (if id@ == "show"@ {
            MenuAction::ShowMain
        } else if id@ == "quit"@ {
            MenuAction::Quit
        } else {
            MenuAction::Ignore
        }),
{
    if same_text(id, "show") {
        MenuAction::ShowMain
    } else if same_text(id, "quit") {
        MenuAction::Quit
    } else {
        MenuAction::Ignore
    }
}

/// Whether closing the window labelled `label` only hides it: the main
/// window stays alive in the tray; other windows close.
pub fn hides_on_close(label: &str) -> (r: bool)
    ensures
        r == (label@ == "main"@),
{
    same_text(label, "main")
}

} // verus!
