//! The menu that the tray shows, held as plain values.
use vstd::prelude::*;

use crate::menu_id::MenuItemId;

verus! {

/// An entry of the tray menu: an item with its key, its label and whether it
/// can be clicked, or a separator line.
#[derive(Clone, Debug)]
pub enum MenuEntry {
    Item { key: String, label: String, enabled: bool },
    Separator,
}

/// What a menu entry is, over the characters of its strings.
pub enum EntryModel {
    Item { key: Seq<char>, label: Seq<char>, enabled: bool },
    Separator,
}

impl View for MenuEntry {
    type V = EntryModel;

    open spec fn view(&self) -> EntryModel {
        match self {
            MenuEntry::Item { key, label, enabled } => EntryModel::Item {
                key: key@,
                label: label@,
                enabled: *enabled,
            },
            MenuEntry::Separator => EntryModel::Separator,
        }
    }
}

/// The tray's menu and the tooltip shown when the pointer rests on the icon.
pub struct TrayMenu {
    pub entries: Vec<MenuEntry>,
    pub tooltip: String,
}

impl TrayMenu {
    /// The entries, in order, over the characters of their strings.
    pub open spec fn entries_model(&self) -> Seq<EntryModel> {
        self.entries@.map_values(|e: MenuEntry| e@)
    }
}

/// The label of the entry that shows the version.
pub open spec fn version_label_of(version: Seq<char>) -> Seq<char> {
    "Version "@ + version
}

/// An entry for `id` that can be clicked, labelled `label`.
pub open spec fn enabled_item(id: MenuItemId, label: Seq<char>) -> EntryModel {
    EntryModel::Item { key: id.key(), label, enabled: true }
}

/// The menu of an application: the dashboard entry, labelled with the
/// dashboard window's name, a separator, the version entry, which cannot be
/// clicked, then the entries that restart and quit the application.
pub open spec fn menu_of(dashboard_label: Seq<char>, version: Seq<char>) -> Seq<EntryModel> {
    seq![
        enabled_item(MenuItemId::DisplayDashboard, dashboard_label),
        EntryModel::Separator,
        EntryModel::Item {
            key: MenuItemId::AppVersion.key(),
            label: version_label_of(version),
            enabled: false,
        },
        enabled_item(MenuItemId::Restart, "Restart"@),
        enabled_item(MenuItemId::Quit, "Quit"@),
    ]
}

/// The label of the entry that shows `version`: `Version {version}`.
pub fn version_label(version: &str) -> (r: String)
    ensures
        r@ == version_label_of(version@),
{
    String::from_str("Version ").concat(version)
}

fn item(id: MenuItemId, label: String, enabled: bool) -> (r: MenuEntry)
    ensures
        r@ == (EntryModel::Item { key: id.key(), label: label@, enabled }),
{
    MenuEntry::Item { key: id.to_string(), label, enabled }
}

/// The tray menu of an application named `app_name` at `version`, whose
/// dashboard window is named `dashboard_label`. The tooltip is the
/// application's name.
pub fn build_tray_menu(dashboard_label: &str, version: &str, app_name: &str) -> (r: TrayMenu)
    ensures
        r.entries_model() == menu_of(dashboard_label@, version@),
        r.entries@.len() == 5,
        r.tooltip@ == app_name@,
{
    let mut entries: Vec<MenuEntry> = Vec::new();
    entries.push(item(MenuItemId::DisplayDashboard, String::from_str(dashboard_label), true));
    entries.push(MenuEntry::Separator);
    entries.push(item(MenuItemId::AppVersion, version_label(version), false));
    entries.push(item(MenuItemId::Restart, String::from_str("Restart"), true));
    entries.push(item(MenuItemId::Quit, String::from_str("Quit"), true));
    let r = TrayMenu { entries, tooltip: String::from_str(app_name) };
    assert(r.entries_model() =~= menu_of(dashboard_label@, version@));
    r
}

/// Every tray menu has five entries: one separator, in the second place, and
/// four items keyed, in order, by the dashboard, version, restart and quit
/// identifiers; of the items, the version entry alone cannot be clicked.
pub proof fn lemma_menu_layout(dashboard_label: Seq<char>, version: Seq<char>)
    ensures
        menu_of(dashboard_label, version).len() == 5,
        forall|i: int|
            0 <= i < 5 ==> (#[trigger] menu_of(dashboard_label, version)[i] is Separator <==> i
                == 1),
        forall|i: int|
            0 <= i < 5 && i != 1 ==> (#[trigger] menu_of(dashboard_label, version)[i]->enabled
                <==> i != 2),
        menu_of(dashboard_label, version)[0]->key == MenuItemId::DisplayDashboard.key(),
        menu_of(dashboard_label, version)[2]->key == MenuItemId::AppVersion.key(),
        menu_of(dashboard_label, version)[3]->key == MenuItemId::Restart.key(),
        menu_of(dashboard_label, version)[4]->key == MenuItemId::Quit.key(),
{
}

} // verus!
