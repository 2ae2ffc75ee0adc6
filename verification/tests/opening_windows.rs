use agency_os_desktop::page_url::{parse_url, PageUrl};
use agency_os_desktop::windows::{
    build_meeting_window, fallback_url, main_window_size, open_document_window, ChildWindow,
    DocumentRoute, MeetingRoute, PreviewCounter, WindowSize, MAIN_WINDOW,
};

fn page(url: &str) -> PageUrl {
    parse_url(url).unwrap()
}

#[test]
fn documents_are_saved_or_shown() {
    match open_document_window(&page("https://h/x.print_format.download_pdf?name=P-1"), Some(7)) {
        DocumentRoute::Save(dialog) => {
            assert_eq!(dialog.file_name, "P-1.pdf");
            assert_eq!(dialog.directory, Some(7));
        }
        DocumentRoute::Preview => panic!("an export is saved"),
    }
    match open_document_window(&page("https://h/printview/a.pdf"), Some(7)) {
        DocumentRoute::Save(dialog) => assert_eq!(dialog.file_name, "document.pdf"),
        DocumentRoute::Preview => panic!("an export is saved"),
    }
    assert_eq!(open_document_window(&page("https://h/printview?x"), Some(7)), DocumentRoute::Preview);
}

#[test]
fn preview_windows() {
    let mut counter = PreviewCounter::default();
    for i in 0..3 {
        let window = counter.build_preview_window(&page("https://h/printview"));
        assert_eq!(window.label, format!("doc-{i}"));
    }
    let window = counter.build_preview_window(&page("https://h/printview?name=P-1"));
    assert_eq!(
        window,
        ChildWindow {
            label: "doc-3".to_string(),
            title: "Preview".to_string(),
            size: WindowSize { width: 900, height: 1160, min_width: 480, min_height: 480 },
            url: "https://h/printview?name=P-1".to_string(),
            origin: page("https://h/").origin(),
            intercepts_links: false,
        }
    );
    assert_eq!(fallback_url(&window, true), None);
    assert_eq!(fallback_url(&window, false), Some("https://h/printview?name=P-1".to_string()));
}

#[test]
fn a_call_has_one_window() {
    let url = page("https://h/agency-os/meet/M-1");
    let mut open = vec![MAIN_WINDOW.to_string(), "call-M-2".to_string()];
    let window = match build_meeting_window(&url, &open) {
        MeetingRoute::Build(window) => window,
        MeetingRoute::Focus(_) => panic!("the call has no window yet"),
    };
    assert_eq!(
        window,
        ChildWindow {
            label: "call-M-1".to_string(),
            title: "Agency OS — Meeting".to_string(),
            size: WindowSize { width: 1200, height: 820, min_width: 720, min_height: 520 },
            url: "https://h/agency-os/meet/M-1".to_string(),
            origin: page("https://h/").origin(),
            intercepts_links: true,
        }
    );
    open.push(window.label);
    for again in ["https://h/agency-os/meet/M-1/?from=mail", "https://h/agency-os/join/M-1"] {
        assert_eq!(
            build_meeting_window(&page(again), &open),
            MeetingRoute::Focus("call-M-1".to_string())
        );
    }
}

#[test]
fn the_main_window() {
    assert_eq!(
        main_window_size(),
        WindowSize { width: 1440, height: 900, min_width: 800, min_height: 600 }
    );
    assert_eq!(MAIN_WINDOW, "main");
}
