use agency_os_desktop::page_url::{parse_url, PageUrl};
use agency_os_desktop::pages;

fn page(url: &str) -> PageUrl {
    parse_url(url).unwrap()
}

#[test]
fn pdf_exports() {
    let endpoint = "https://h/api/method/frappe.utils.print_format.download_pdf?name=P-1";
    assert!(pages::looks_like_pdf_download(&page(endpoint)));
    assert!(pages::looks_like_pdf_download(&page("https://h/files/offer.pdf?x=1")));
    assert!(!pages::looks_like_pdf_download(&page("https://h/files/offer.PDF")));
    assert!(!pages::looks_like_pdf_download(&page("https://h/x?f=offer.pdf")));
    assert!(!pages::looks_like_pdf_download(&page("https://h/printview?doctype=Offer")));
}

#[test]
fn print_previews() {
    assert!(pages::looks_like_print_preview(&page("https://h/printview?doctype=Offer")));
    assert!(!pages::looks_like_print_preview(&page("https://h/app/printview")));
    assert!(pages::is_document_url(&page("https://h/printview")));
    assert!(pages::is_document_url(&page("https://h/a.pdf")));
    assert!(!pages::is_document_url(&page("https://h/app/home")));
}

#[test]
fn calls() {
    assert!(pages::looks_like_meeting_room(&page("https://h/agency-os/meet/MEET-1")));
    assert!(pages::looks_like_meeting_room(&page("https://h/agency-os/join/MEET-1")));
    assert!(!pages::looks_like_meeting_room(&page("https://h/agency-os/meet")));
    assert!(!pages::looks_like_meeting_room(&page("https://zoom.us/j/123")));
}

#[test]
fn suggested_names() {
    assert_eq!(pages::suggested_pdf_name(&page("https://h/x?name=P%200001")), "P 0001.pdf");
    assert_eq!(pages::suggested_pdf_name(&page("https://h/x?a=1&name=A&name=B")), "A.pdf");
    assert_eq!(pages::suggested_pdf_name(&page("https://h/x?name=")), "document.pdf");
    assert_eq!(pages::suggested_pdf_name(&page("https://h/x?name=&name=B")), "document.pdf");
    assert_eq!(pages::suggested_pdf_name(&page("https://h/x?other=1")), "document.pdf");
    assert_eq!(pages::suggested_pdf_name(&page("https://h/x")), "document.pdf");
}

#[test]
fn names_from_given_parameters() {
    let named = vec![("name".to_string(), "Q-7".to_string())];
    assert_eq!(pages::pdf_name_from(&named), "Q-7.pdf");
    assert_eq!(pages::pdf_name_from(&vec![]), "document.pdf");
}

#[test]
fn file_names_do_not_lead_out_of_a_directory() {
    for (name, expected) in [
        ("/a/b.pdf", "_a_b.pdf"),
        ("../a.pdf", ".._a.pdf"),
        ("a/../../b.pdf", "a_.._.._b.pdf"),
        ("a/..", "a_.."),
        ("a/../b\\c.pdf", "a_.._b\\c.pdf"),
    ] {
        assert_eq!(pages::contained_name(name), expected);
    }
    for name in [
        "", ".", "a/b.pdf", "a\\b.pdf", "..\\b.pdf", "a..b/c.pdf",
        "..a/b.pdf", "a../b.pdf", ".../b.pdf", "a/..b.pdf", "é: x.pdf",
    ] {
        assert_eq!(pages::contained_name(name), name);
    }
}

#[test]
fn cockpit_pages() {
    let server = page("https://h/sub/agency-os/");
    for url in ["https://h/agency-os", "https://h/agency-os/", "https://h/sub/agency-os/x"] {
        assert!(pages::is_cockpit_page(&page(url), &server), "{url}");
    }
    for url in ["https://h/agency-osx", "https://h/sub/", "https://h/", "https://h/x/agency-os/"] {
        assert!(!pages::is_cockpit_page(&page(url), &server), "{url}");
    }
}

#[test]
fn call_labels() {
    let label = |url: &str| pages::meeting_window_label(&page(url));
    assert_eq!(label("https://h/agency-os/meet/MEET-0001"), "call-MEET-0001");
    assert_eq!(label("https://h/agency-os/meet/a_b-C9/"), "call-a_b-C9");
    assert_eq!(label("https://h/agency-os/meet/a.b%20c"), "call-a_b_20c");
    assert_eq!(label("https://h/agency-os/meet/x?guest=1#top"), "call-x");
    assert_eq!(label("https://h/"), "call-call");
    assert_eq!(label("https://h/agency-os/meet/"), "call-meet");
    assert_eq!(pages::sanitise("é/:.x"), "____x");
}

#[test]
fn call_labels_use_accepted_characters_only() {
    for url in ["https://h/meet/ä ö:@!$&'()*+,;=~", "https://h/", "https://h/%F0%9F%98%80"] {
        let label = pages::meeting_window_label(&page(url));
        assert!(label
            .chars()
            .all(|c| c.is_ascii_alphanumeric() || "-/:_".contains(c)));
    }
}

#[test]
fn labels_of_different_meetings_and_previews_differ() {
    let a = pages::meeting_window_label(&page("https://h/agency-os/meet/M-1"));
    let b = pages::meeting_window_label(&page("https://h/agency-os/meet/M-2"));
    assert_ne!(a, b);
    assert_eq!(pages::preview_window_label(0), "doc-0");
    assert_eq!(pages::preview_window_label(41), "doc-41");
    assert_eq!(pages::preview_window_label(usize::MAX), format!("doc-{}", usize::MAX));
}
