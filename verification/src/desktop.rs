//! Decisions of the desktop shell: what a hotkey, a menu entry or a click on
//! the tray icon leads to. Carrying the decision out is left to the caller.

use vstd::prelude::*;
use crate::models::Stock;
use crate::poller::{visible_pairs, visible_stocks};
use crate::text::same_text;

verus! {

/// Time after a hotkey has fired during which it does not fire again, in
/// milliseconds.
pub const DEBOUNCE_MS: u64 = 300;

/// Tells whether a hotkey pressed `elapsed_ms` after it last fired is to be
/// ignored.
pub fn debounced(elapsed_ms: u64) -> (ignored: bool)
    ensures
        ignored == (elapsed_ms < DEBOUNCE_MS),
{
    elapsed_ms < DEBOUNCE_MS
}

/// What to do with a window.
#[derive(Debug, Clone, Copy, PartialEq, Eq, Structural)]
pub enum WindowAction {
    Hide,
    ShowAndFocus,
}

/// Decides what toggling a window does: a visible window is hidden, a hidden
/// one is shown and focused.
pub fn toggle_action(visible: bool) -> (action: WindowAction)
    ensures
        action == if visible {
            WindowAction::Hide
        } else {
            WindowAction::ShowAndFocus
        },
{
    if visible {
        WindowAction::Hide
    } else {
        WindowAction::ShowAndFocus
    }
}

/// Tells whether there is another stock to switch to: more than one stock
/// is visible.
pub fn can_switch_stock(stocks: &[Stock]) -> (can: bool)
    ensures
        can == (visible_pairs(stocks@).len() > 1),
{
    visible_stocks(stocks).len() > 1
}

/// What a menu entry leads to.
#[derive(Debug, Clone, Copy, PartialEq, Eq, Structural)]
pub enum MenuAction {
    /// Show and focus the settings window.
    ShowSettings,
    /// Show and focus the monitor window.
    ShowMonitor,
    /// Hide the monitor window.
    HideMonitor,
    /// Leave the application.
    Quit,
    /// Nothing to do.
    Ignore,
}

/// The action behind the entry `id` of the application menu, the context
/// menu or the tray menu.
pub open spec fn menu_action_for(id: Seq<char>) -> MenuAction {
    if id == "about"@ || id == "app_settings"@ || id == "ctx_settings"@ || id == "settings"@ {
        MenuAction::ShowSettings
    } else if id == "show_all"@ {
        MenuAction::ShowMonitor
    } else if id == "hide"@ || id == "ctx_hide"@ {
        MenuAction::HideMonitor
    } else if id == "app_quit"@ || id == "ctx_quit"@ || id == "quit"@ {
        MenuAction::Quit
    } else {
        MenuAction::Ignore
    }
}

/// Decides what a menu entry leads to.
pub fn menu_action(id: &str) -> (action: MenuAction)
    ensures
        action == menu_action_for(id@),
{
    if same_text(id, "about") || same_text(id, "app_settings") || same_text(id, "ctx_settings")
        || same_text(id, "settings") {
        MenuAction::ShowSettings
    } else if same_text(id, "show_all") {
        MenuAction::ShowMonitor
    } else if same_text(id, "hide") || same_text(id, "ctx_hide") {
        MenuAction::HideMonitor
    } else if same_text(id, "app_quit") || same_text(id, "ctx_quit") || same_text(id, "quit") {
        MenuAction::Quit
    } else {
        MenuAction::Ignore
    }
}

/// Tells whether a window is hidden instead of closed when the user closes
/// it. This holds of the settings window alone.
pub fn hides_on_close(label: &str) -> (hides: bool)
    ensures
        hides == (label@ == "settings"@),
{
    same_text(label, "settings")
}

} // verus!
