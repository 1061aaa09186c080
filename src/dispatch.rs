//! What the tray does on each event: the decision is made here, from the
//! event alone, and the caller carries it out.
use vstd::prelude::*;

use crate::menu_id::{item_of_key, MenuItemId};

verus! {

/// An event that the tray reports.
#[derive(Clone, Debug)]
pub enum TrayEvent {
    /// The icon was clicked with the left button.
    LeftClick,
    /// The menu item keyed `id` was clicked.
    MenuItemClick { id: String },
    /// Any other event of the tray.
    Other,
}

/// The one call, if any, that an event asks of the window manager or of the
/// application's lifecycle.
#[derive(Clone, Copy, Debug, PartialEq, Eq, Structural)]
pub enum TrayAction {
    /// Show the dashboard window.
    ShowDashboard,
    /// Restart the process, with the current environment.
    Restart,
    /// Exit the application.
    Exit,
    /// Call nothing.
    Nothing,
}

/// The action for a click on the item that a key names (`None`: a key that
/// names no item).
pub open spec fn action_for_item(id: Option<MenuItemId>) -> TrayAction {
    match id {
        Some(MenuItemId::DisplayDashboard) => TrayAction::ShowDashboard,
        Some(MenuItemId::Restart) => TrayAction::Restart,
        Some(MenuItemId::Quit) => TrayAction::Exit,
        Some(MenuItemId::AppVersion) | None => TrayAction::Nothing,
    }
}

/// The action for `event`. Where `left_click_opens_menu`, the platform opens
/// the menu itself on a left click, and the click calls for nothing here;
/// elsewhere it shows the dashboard.
pub open spec fn action_of(event: TrayEvent, left_click_opens_menu: bool) -> TrayAction {
    match event {
        TrayEvent::LeftClick => if left_click_opens_menu {
            TrayAction::Nothing
        } else {
            TrayAction::ShowDashboard
        },
        TrayEvent::MenuItemClick { id } => action_for_item(item_of_key(id@)),
        TrayEvent::Other => TrayAction::Nothing,
    }
}

/// The action that `event` calls for, on a platform that opens the menu on a
/// left click exactly where `left_click_opens_menu`.
pub fn tray_action(event: &TrayEvent, left_click_opens_menu: bool) -> (r: TrayAction)
    ensures
        r == action_of(*event, left_click_opens_menu),
{
    match event {
        TrayEvent::LeftClick => if left_click_opens_menu {
            TrayAction::Nothing
        } else {
            TrayAction::ShowDashboard
        },
        TrayEvent::MenuItemClick { id } => match MenuItemId::parse(id.as_str()) {
            Some(MenuItemId::DisplayDashboard) => TrayAction::ShowDashboard,
            Some(MenuItemId::Restart) => TrayAction::Restart,
            Some(MenuItemId::Quit) => TrayAction::Exit,
            Some(MenuItemId::AppVersion) | None => TrayAction::Nothing,
        },
        TrayEvent::Other => TrayAction::Nothing,
    }
}

/// The line written to the diagnostic stream when the dashboard could not be
/// shown.
pub open spec fn failure_line_of(error: Seq<char>) -> Seq<char> {
    "Failed to show dashboard: "@ + error
}

/// The diagnostic line for a failure to show the dashboard with `error`.
pub fn dashboard_failure_line(error: &str) -> (r: String)
    ensures
        r@ == failure_line_of(error@),
{
    String::from_str("Failed to show dashboard: ").concat(error)
}

/// What to report of an attempt to show the dashboard: nothing where it
/// succeeded, and one diagnostic line where it failed. The failure goes no
/// further.
pub fn report_show_result(result: &Result<(), String>) -> (r: Option<String>)
    ensures
        result is Ok ==> r is None,
        result matches Err(e) ==> (r matches Some(line) && line@ == failure_line_of(e@)),
{
    match result {
        Ok(()) => None,
        Err(e) => Some(dashboard_failure_line(e.as_str())),
    }
}

/// A click on an item's own key calls for that item's action: the dashboard
/// entry shows the dashboard, restart restarts, quit exits, and the version
/// entry calls for nothing.
pub proof fn lemma_click_on_item(event: TrayEvent, id: MenuItemId, left_click_opens_menu: bool)
    requires
        event matches TrayEvent::MenuItemClick { id: key } && key@ == id.key(),
    ensures
        action_of(event, left_click_opens_menu) == action_for_item(Some(id)),
        id == MenuItemId::DisplayDashboard ==> action_of(event, left_click_opens_menu)
            == TrayAction::ShowDashboard,
        id == MenuItemId::Restart ==> action_of(event, left_click_opens_menu)
            == TrayAction::Restart,
        id == MenuItemId::Quit ==> action_of(event, left_click_opens_menu) == TrayAction::Exit,
        id == MenuItemId::AppVersion ==> action_of(event, left_click_opens_menu)
            == TrayAction::Nothing,
{
    crate::menu_id::lemma_parse_key_round_trip(id);
}

/// A click on a key that names no item calls for nothing.
pub proof fn lemma_click_on_unknown_key(event: TrayEvent, left_click_opens_menu: bool)
    requires
        event matches TrayEvent::MenuItemClick { id: key } && item_of_key(key@) is None,
    ensures
        action_of(event, left_click_opens_menu) == TrayAction::Nothing,
{
}

/// A left click calls for nothing where the platform opens the menu on it,
/// and shows the dashboard everywhere else.
pub proof fn lemma_left_click(left_click_opens_menu: bool)
    ensures
        left_click_opens_menu ==> action_of(TrayEvent::LeftClick, left_click_opens_menu)
            == TrayAction::Nothing,
        !left_click_opens_menu ==> action_of(TrayEvent::LeftClick, left_click_opens_menu)
            == TrayAction::ShowDashboard,
{
}

} // verus!
