use agency_os_desktop::navigation::{
    keep_in_origin, main_window_nav, meeting_window_nav, open_link_in_browser, route_link,
    route_page, take_notifications, Navigation,
};
use agency_os_desktop::page_url::{parse_url, Origin, PageUrl};

fn page(url: &str) -> PageUrl {
    parse_url(url).unwrap()
}

/// The main window of a client that is connected to `https://h`.
fn main_nav(url: &str) -> Navigation {
    main_window_nav(&page(url), &Some(page("https://h/agency-os/")))
}

fn origin(url: &str) -> Origin {
    page(url).origin()
}

fn browser(url: &str) -> Navigation {
    Navigation::OpenInBrowser(url.to_string())
}

#[test]
fn the_main_window_shows_the_cockpit_and_the_local_pages() {
    assert_eq!(main_nav("https://h/agency-os/"), Navigation::Allow);
    assert_eq!(main_nav("https://h/agency-os/login?x=1"), Navigation::Allow);
    assert_eq!(main_nav("http://h/agency-os/"), Navigation::Allow);
    assert_eq!(main_nav("https://h/agency-os/meet/M-1"), Navigation::Allow);
    assert_eq!(main_nav("https://h/agency-os/x.pdf"), Navigation::Allow);
    assert_eq!(main_nav("tauri://localhost/index.html?change=1"), Navigation::Allow);
    assert_eq!(main_nav("https://h/agency-os"), Navigation::Allow);
    assert!(main_nav("https://h/agency-os/").is_allowed());
}

#[test]
fn the_main_window_shows_the_cockpit_of_a_server_below_the_root() {
    let server = Some(page("https://h/sub/agency-os/"));
    let nav = |url: &str| main_window_nav(&page(url), &server);
    assert_eq!(nav("https://h/sub/agency-os/"), Navigation::Allow);
    assert_eq!(nav("https://h/sub/agency-os"), Navigation::Allow);
    assert_eq!(nav("https://h/sub/agency-os/login"), Navigation::Allow);
    assert_eq!(nav("https://h/agency-os/login"), Navigation::Allow);
    assert_eq!(nav("https://h/sub/app"), browser("https://h/sub/app"));
    assert_eq!(nav("https://h/sub/agency-osx"), browser("https://h/sub/agency-osx"));
    assert_eq!(main_nav("https://h/sub/agency-os/"), browser("https://h/sub/agency-os/"));
}

#[test]
fn a_server_without_a_host_is_shown() {
    let server = Some(page("file:///agency-os/"));
    let nav = |url: &str| main_window_nav(&page(url), &server);
    assert_eq!(nav("file:///agency-os/"), Navigation::Allow);
    assert_eq!(nav("file:///agency-os/login"), Navigation::Allow);
    assert_eq!(nav("file:///etc/x"), browser("file:///etc/x"));
    assert_eq!(nav("mailto:/agency-os/"), browser("mailto:/agency-os/"));
    assert_eq!(nav("https://h/agency-os/"), browser("https://h/agency-os/"));
    assert_eq!(main_nav("file:///agency-os/"), browser("file:///agency-os/"));
}

#[test]
fn the_path_of_the_server_counts_only_where_it_leads_to_a_cockpit() {
    let server = Some(page("https://h/?x=/agency-os/"));
    let nav = |url: &str| main_window_nav(&page(url), &server);
    assert_eq!(nav("https://h/app"), browser("https://h/app"));
    assert_eq!(nav("https://h/agency-os/"), Navigation::Allow);
}

#[test]
fn other_sites_are_not_shown() {
    let foreign = "https://other.example/agency-os/x";
    assert_eq!(main_nav(foreign), browser(foreign));
    assert_eq!(main_window_nav(&page(foreign), &None), browser(foreign));
    assert_eq!(main_nav("mailto:/agency-os"), browser("mailto:/agency-os"));
    let local = page("tauri://localhost/index.html");
    assert_eq!(main_window_nav(&local, &None), Navigation::Allow);
    let export = page("https://other.example/agency-os/x.pdf");
    assert_eq!(main_nav(&export.text), Navigation::OpenDocument(export));
}

#[test]
fn other_pages_leave_the_main_window() {
    assert_eq!(main_nav("https://h/app/home"), browser("https://h/app/home"));
    assert_eq!(main_nav("https://h/agency-osx"), browser("https://h/agency-osx"));
    assert!(!main_nav("https://h/app/home").is_allowed());
    assert_eq!(
        route_page(&page("https://other.example/"), &None),
        browser("https://other.example/")
    );
    let preview = page("https://h/printview?doctype=Offer&name=O-1");
    assert_eq!(main_nav(&preview.text), Navigation::OpenDocument(preview));
}

#[test]
fn handed_over_links() {
    let to = |target: &str| {
        let mut carrier = url::Url::parse("https://ext.agencyos.invalid/").unwrap();
        carrier.query_pairs_mut().append_pair("u", target);
        main_nav(carrier.as_str())
    };
    let call = "https://h/agency-os/meet/M-1";
    assert_eq!(to(call), Navigation::OpenMeeting(page(call)));
    let join = "https://h/agency-os/join/M-1?t=a%26b";
    assert_eq!(to(join), Navigation::OpenMeeting(page(join)));
    let export = "https://h/api/method/x.print_format.download_pdf?name=P-1";
    assert_eq!(to(export), Navigation::OpenDocument(page(export)));
    assert_eq!(to("https://zoom.us/j/1?pwd=%20"), browser("https://zoom.us/j/1?pwd=%20"));
    assert_eq!(to("https://h/agency-os/"), browser("https://h/agency-os/"));
    assert_eq!(to("HTTPS://Other.Example"), browser("HTTPS://Other.Example"));
    assert_eq!(to("not a url"), browser("not a url"));
    assert_eq!(to(""), browser(""));
}

#[test]
fn a_hand_over_without_a_link_does_nothing() {
    assert_eq!(main_nav("https://ext.agencyos.invalid/?x=1"), Navigation::Cancel);
    assert_eq!(
        main_nav("https://ext.agencyos.invalid/agency-os/"),
        Navigation::Cancel
    );
}

#[test]
fn handed_over_notifications() {
    let carrier = "https://notify.agencyos.invalid/?n=%5B%7B%22t%22%3A1%7D%5D";
    assert_eq!(
        main_nav(carrier),
        Navigation::PostNotifications("[{\"t\":1}]".to_string())
    );
    assert_eq!(main_nav("https://notify.agencyos.invalid/"), Navigation::Cancel);
    assert_eq!(take_notifications(None), Navigation::Cancel);
}

#[test]
fn links_by_what_they_parse_to() {
    let link = "https://h/agency-os/meet/x.pdf".to_string();
    let parsed = page(&link);
    assert_eq!(
        route_link(link.clone(), Some(parsed.clone())),
        Navigation::OpenMeeting(parsed)
    );
    assert_eq!(route_link(link.clone(), None), browser(&link));
    let plain = page("https://h/app");
    assert_eq!(route_link("raw".to_string(), Some(plain)), browser("raw"));
}

#[test]
fn preview_windows_keep_their_origin() {
    let own = origin("https://h/printview");
    assert_eq!(keep_in_origin(&own, &page("https://h/other")), Navigation::Allow);
    assert_eq!(keep_in_origin(&own, &page("https://h:443/other")), Navigation::Allow);
    assert_eq!(keep_in_origin(&own, &page("tauri://localhost/")), Navigation::Allow);
    assert_eq!(keep_in_origin(&own, &page("http://h/x")), browser("http://h/x"));
    assert_eq!(keep_in_origin(&own, &page("https://h:8443/x")), browser("https://h:8443/x"));
    assert_eq!(keep_in_origin(&own, &page("https://i/x?y")), browser("https://i/x?y"));
    assert_eq!(keep_in_origin(&own, &page("about:blank")), browser("about:blank"));
    let blank = origin("about:blank");
    assert_eq!(keep_in_origin(&blank, &page("about:blank")), browser("about:blank"));
}

#[test]
fn call_windows_send_links_to_the_browser() {
    let own = origin("https://h/agency-os/meet/M-1");
    let invite = page("https://ext.agencyos.invalid/?u=https%3A%2F%2Fh%2Fagency-os%2Fjoin%2FM-1");
    assert_eq!(meeting_window_nav(&own, &invite), browser("https://h/agency-os/join/M-1"));
    assert_eq!(
        meeting_window_nav(&own, &page("https://ext.agencyos.invalid/")),
        Navigation::Cancel
    );
    assert_eq!(meeting_window_nav(&own, &page("https://h/agency-os/")), Navigation::Allow);
    assert_eq!(meeting_window_nav(&own, &page("http://h/x")), browser("http://h/x"));
    assert_eq!(meeting_window_nav(&own, &page("https://h:1/x")), browser("https://h:1/x"));
    assert_eq!(
        meeting_window_nav(&own, &page("https://notify.agencyos.invalid/?n=x")),
        browser("https://notify.agencyos.invalid/?n=x")
    );
    assert_eq!(open_link_in_browser(None), Navigation::Cancel);
    assert_eq!(open_link_in_browser(Some("x".to_string())), browser("x"));
}
