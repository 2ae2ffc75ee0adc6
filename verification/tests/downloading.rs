use agency_os_desktop::downloads::{
    prompt_and_download_pdf, PendingDownloads, SaveDialog, SaveTarget,
};
use agency_os_desktop::notices::Notification;
use agency_os_desktop::page_url::{parse_url, PageUrl};
use agency_os_desktop::scripts;

fn page(url: &str) -> PageUrl {
    parse_url(url).unwrap()
}

fn chosen(target: SaveTarget<u32>) -> Option<u32> {
    match target {
        SaveTarget::Chosen(place) => Some(place),
        _ => None,
    }
}

#[test]
fn the_dialog_offers_the_documents_name() {
    assert_eq!(
        prompt_and_download_pdf(&page("https://h/x.pdf?name=P-1"), Some(4)),
        SaveDialog {
            title: "Save PDF".to_string(),
            file_name: "P-1.pdf".to_string(),
            filter_name: "PDF".to_string(),
            filter_extension: "pdf".to_string(),
            directory: Some(4),
        }
    );
    let dialog = prompt_and_download_pdf::<u32>(&page("https://h/x.pdf?name=a/b"), None);
    assert_eq!(dialog.file_name, "a/b.pdf");
    assert_eq!(dialog.directory, None);
}

#[test]
fn places_are_used_in_the_order_of_the_choices() {
    let url = page("https://h/x.pdf");
    let mut pending: PendingDownloads<u32> = PendingDownloads::default();
    let script = pending.save_location_chosen(Some(1), "https://h/1.pdf");
    assert_eq!(script, Some(scripts::download_start_js("https://h/1.pdf")));
    pending.save_location_chosen(Some(2), "https://h/2.pdf");
    assert_eq!(chosen(pending.download_requested(&url, None)), Some(1));
    pending.save_location_chosen(Some(3), "https://h/3.pdf");
    assert_eq!(chosen(pending.download_requested(&url, Some(9))), Some(2));
    assert_eq!(chosen(pending.download_requested(&url, Some(9))), Some(3));
    assert_eq!(chosen(pending.download_requested(&url, Some(9))), None);
}

#[test]
fn a_cancelled_dialog_changes_nothing() {
    let mut pending: PendingDownloads<u32> = PendingDownloads::default();
    pending.save_location_chosen(Some(1), "u");
    assert_eq!(pending.save_location_chosen(None, "u"), None);
    let url = page("https://h/x.pdf");
    assert_eq!(chosen(pending.download_requested(&url, None)), Some(1));
    assert_eq!(chosen(pending.download_requested(&url, None)), None);
}

#[test]
fn a_download_nobody_was_asked_about() {
    let mut pending: PendingDownloads<u32> = PendingDownloads::default();
    let url = page("https://h/x.pdf?name=P-1");
    match pending.download_requested(&url, Some(7)) {
        SaveTarget::InDirectory(directory, name) => {
            assert_eq!(directory, 7);
            assert_eq!(name, "P-1.pdf");
        }
        _ => panic!("a directory is known"),
    }
    match pending.download_requested(&url, None) {
        SaveTarget::Named(name) => assert_eq!(name, "P-1.pdf"),
        _ => panic!("no directory is known"),
    }
}

#[test]
fn a_download_nobody_was_asked_about_stays_in_its_directory() {
    let mut pending: PendingDownloads<u32> = PendingDownloads::default();
    for (query, contained, suggested) in [
        ("name=/tmp/x", "_tmp_x.pdf", "/tmp/x.pdf"),
        ("name=../x", ".._x.pdf", "../x.pdf"),
        ("name=a/../x", "a_.._x.pdf", "a/../x.pdf"),
        ("name=..%5Cx", "..\\x.pdf", "..\\x.pdf"),
        ("name=P/2024/1", "P/2024/1.pdf", "P/2024/1.pdf"),
        ("name=P 1", "P 1.pdf", "P 1.pdf"),
        ("", "document.pdf", "document.pdf"),
    ] {
        let url = page(&format!("https://h/x.pdf?{query}"));
        match pending.download_requested(&url, Some(7)) {
            SaveTarget::InDirectory(directory, name) => {
                assert_eq!(directory, 7);
                assert_eq!(name, contained);
            }
            _ => panic!("a directory is known"),
        }
        match pending.download_requested(&url, None) {
            SaveTarget::Named(name) => assert_eq!(name, suggested),
            _ => panic!("no directory is known"),
        }
    }
}

#[test]
fn finished_downloads() {
    let mut pending: PendingDownloads<u32> = PendingDownloads::default();
    let saved = |name: &str| {
        Some(Notification {
            title: "Download complete".to_string(),
            body: format!("Saved {name}"),
        })
    };
    assert_eq!(pending.download_finished(true).notification, saved("PDF"));
    pending.download_started(Some("a.pdf".to_string()));
    pending.download_started(Some("b.pdf".to_string()));
    pending.save_location_chosen(Some(1), "u");
    assert_eq!(pending.download_finished(true).notification, saved("b.pdf"));
    assert_eq!(pending.download_finished(true).script, scripts::download_done_js());
    assert_eq!(pending.download_finished(false).notification, None);
    assert_eq!(pending.download_finished(false).script, scripts::download_done_js());
    pending.download_started(None);
    assert_eq!(pending.download_finished(true).notification, saved("PDF"));
}
