use tray_menu::dispatch::{
    dashboard_failure_line, report_show_result, tray_action, TrayAction, TrayEvent,
};

fn click(key: &str) -> TrayEvent {
    TrayEvent::MenuItemClick { id: key.to_string() }
}

#[test]
fn dashboard_click_shows_dashboard() {
    assert_eq!(tray_action(&click("DisplayDashboard"), false), TrayAction::ShowDashboard);
    assert_eq!(tray_action(&click("DisplayDashboard"), true), TrayAction::ShowDashboard);
}

#[test]
fn restart_click_restarts() {
    assert_eq!(tray_action(&click("Restart"), false), TrayAction::Restart);
}

#[test]
fn quit_click_exits() {
    assert_eq!(tray_action(&click("Quit"), false), TrayAction::Exit);
    assert_eq!(tray_action(&click("Quit"), true), TrayAction::Exit);
}

#[test]
fn version_click_does_nothing() {
    assert_eq!(tray_action(&click("AppVersion"), false), TrayAction::Nothing);
    assert_eq!(tray_action(&click("AppVersion"), true), TrayAction::Nothing);
}

#[test]
fn unknown_click_does_nothing() {
    assert_eq!(tray_action(&click("not-a-real-key"), false), TrayAction::Nothing);
    assert_eq!(tray_action(&click(""), false), TrayAction::Nothing);
}

#[test]
fn left_click_depends_on_platform() {
    assert_eq!(tray_action(&TrayEvent::LeftClick, true), TrayAction::Nothing);
    assert_eq!(tray_action(&TrayEvent::LeftClick, false), TrayAction::ShowDashboard);
}

#[test]
fn other_events_do_nothing() {
    assert_eq!(tray_action(&TrayEvent::Other, false), TrayAction::Nothing);
    assert_eq!(tray_action(&TrayEvent::Other, true), TrayAction::Nothing);
}

#[test]
fn failure_line_names_the_error() {
    assert_eq!(
        dashboard_failure_line("window not found"),
        "Failed to show dashboard: window not found"
    );
}

#[test]
fn show_failure_gives_one_line() {
    let failed: Result<(), String> = Err("window not found".to_string());
    let report = report_show_result(&failed);
    assert_eq!(
        report.as_deref(),
        Some("Failed to show dashboard: window not found")
    );
    assert_eq!(report.unwrap().lines().count(), 1);
}

#[test]
fn show_success_reports_nothing() {
    assert_eq!(report_show_result(&Ok(())), None);
}
