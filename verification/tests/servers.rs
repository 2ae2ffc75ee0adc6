use agency_os_desktop::page_url::{parse_url, PageUrl};
use agency_os_desktop::server::{
    app_target, initial_cockpit, initial_page, open_parsed, open_server, read_saved_url,
    set_server_url, InitialPage, SERVER_FILE,
};

fn page(url: &str) -> PageUrl {
    parse_url(url).unwrap()
}

#[test]
fn a_server_is_remembered() {
    let written = set_server_url("  https://agencyos.example.com\n");
    assert_eq!(written, "https://agencyos.example.com");
    assert_eq!(read_saved_url(Some(written.clone())), Some(written));
    assert_eq!(read_saved_url(Some(set_server_url(" \t "))), None);
    assert_eq!(SERVER_FILE, "server-url.txt");
}

#[test]
fn no_file_no_server() {
    assert_eq!(read_saved_url(None), None);
    assert_eq!(read_saved_url(Some(String::new())), None);
    assert_eq!(read_saved_url(Some("\n".to_string())), None);
    assert_eq!(read_saved_url(Some("x\n".to_string())), Some("x".to_string()));
}

#[test]
fn the_entry_point_of_the_cockpit() {
    assert_eq!(app_target("https://a.example"), "https://a.example/agency-os/");
    assert_eq!(app_target("https://a.example/"), "https://a.example/agency-os/");
    assert_eq!(app_target("https://a.example///"), "https://a.example/agency-os/");
    assert_eq!(app_target("https://a.example/sub"), "https://a.example/sub/agency-os/");
    assert_eq!(app_target(""), "/agency-os/");
    assert_eq!(app_target("///"), "/agency-os/");
}

#[test]
fn opening_a_server() {
    assert_eq!(open_server("https://A.example/", true), Ok(page("https://a.example/agency-os/")));
    assert_eq!(open_server("https://a.example", false), Err("main window not found".to_string()));
    assert_eq!(open_server("a.example", true), Err("relative URL without a base".to_string()));
    assert_eq!(open_server("a.example", false), Err("relative URL without a base".to_string()));
    assert_eq!(open_parsed(Err("why".to_string()), true), Err("why".to_string()));
}

#[test]
fn the_first_page() {
    assert_eq!(initial_page(None), Ok(InitialPage::Local("index.html".to_string())));
    assert_eq!(
        initial_page(Some("https://a.example/".to_string())),
        Ok(InitialPage::Cockpit(page("https://a.example/agency-os/")))
    );
    assert_eq!(
        initial_page(Some("nonsense".to_string())),
        Err("relative URL without a base".to_string())
    );
    let cockpit = page("https://a.example/agency-os/");
    assert_eq!(InitialPage::Cockpit(cockpit.clone()).server(), Some(cockpit));
    assert_eq!(InitialPage::Local("index.html".to_string()).server(), None);
    assert_eq!(initial_cockpit(Err("why".to_string())), Err("why".to_string()));
}
