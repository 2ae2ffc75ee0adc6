use agency_os_desktop::menu::{change_server, menu_action, MenuAction};
use agency_os_desktop::page_url::parse_url;

#[test]
fn items_with_a_main_window() {
    let connect = parse_url("tauri://localhost/index.html?change=1").unwrap();
    assert_eq!(menu_action("change-server", Some(false)), MenuAction::Navigate(connect));
    assert_eq!(
        menu_action("reload", Some(true)),
        MenuAction::RunScript("window.location.reload()".to_string())
    );
    assert_eq!(menu_action("devtools", Some(true)), MenuAction::CloseDevtools);
    assert_eq!(menu_action("devtools", Some(false)), MenuAction::OpenDevtools);
    assert_eq!(menu_action("check-updates", Some(true)), MenuAction::CheckForUpdates);
    assert_eq!(menu_action("quit", Some(true)), MenuAction::Nothing);
    assert_eq!(menu_action("", Some(false)), MenuAction::Nothing);
}

#[test]
fn items_without_a_main_window() {
    assert_eq!(menu_action("change-server", None), MenuAction::Nothing);
    assert_eq!(menu_action("reload", None), MenuAction::Nothing);
    assert_eq!(menu_action("devtools", None), MenuAction::Nothing);
    assert_eq!(menu_action("check-updates", None), MenuAction::CheckForUpdates);
}

#[test]
fn a_connect_page_that_does_not_parse() {
    assert_eq!(change_server(Err("why".to_string())), MenuAction::Nothing);
}
