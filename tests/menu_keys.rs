use tray_menu::menu_id::MenuItemId;

const ALL: [MenuItemId; 4] = [
    MenuItemId::DisplayDashboard,
    MenuItemId::Restart,
    MenuItemId::Quit,
    MenuItemId::AppVersion,
];

#[test]
fn keys_are_variant_names() {
    assert_eq!(MenuItemId::DisplayDashboard.as_str(), "DisplayDashboard");
    assert_eq!(MenuItemId::Restart.as_str(), "Restart");
    assert_eq!(MenuItemId::Quit.as_str(), "Quit");
    assert_eq!(MenuItemId::AppVersion.as_str(), "AppVersion");
    assert_eq!(MenuItemId::Quit.to_string(), "Quit");
}

#[test]
fn parse_of_to_string_gives_the_item_back() {
    for id in ALL {
        assert_eq!(MenuItemId::parse(&id.to_string()), Some(id));
        assert_eq!(MenuItemId::parse(id.as_str()), Some(id));
    }
}

#[test]
fn unknown_key_is_not_recognized() {
    assert_eq!(MenuItemId::parse("not-a-real-key"), None);
}

#[test]
fn parse_is_exact() {
    assert_eq!(MenuItemId::parse(""), None);
    assert_eq!(MenuItemId::parse("quit"), None);
    assert_eq!(MenuItemId::parse("Quit "), None);
    assert_eq!(MenuItemId::parse("Qui"), None);
    assert_eq!(MenuItemId::parse("DisplayDashboardX"), None);
    assert_eq!(MenuItemId::parse("Restart"), Some(MenuItemId::Restart));
}
