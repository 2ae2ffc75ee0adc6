//! What becomes of a navigation: which pages a window shows itself, and where
//! the others go.
//!
//! Two hosts that exist nowhere carry messages from the page to the client: a
//! page navigates to one of them, the client reads the query and cancels the
//! navigation.
use vstd::prelude::*;

use crate::page_url;
use crate::page_url::Origin;
use crate::page_url::OriginView;
use crate::page_url::PageUrl;
use crate::page_url::UrlView;
use crate::pages;
use crate::text;

verus! {

/// The host of the navigations that hand over a link to open.
pub const LINK_HOST: &'static str = "ext.agencyos.invalid";

/// The host of the navigations that hand over notifications to post.
pub const NOTIFICATION_HOST: &'static str = "notify.agencyos.invalid";

/// What to do about a navigation.
#[derive(Debug, PartialEq, Eq)]
pub enum Navigation {
    /// Let the window navigate.
    Allow,
    /// Cancel the navigation, and do nothing else.
    Cancel,
    /// Cancel the navigation, and open a URL in the system browser.
    OpenInBrowser(String),
    /// Cancel the navigation, and post the notifications of a message.
    PostNotifications(String),
    /// Cancel the navigation, and open a call in its window.
    OpenMeeting(PageUrl),
    /// Cancel the navigation, and open a print preview or a PDF export.
    OpenDocument(PageUrl),
}

/// The texts of a [`Navigation`].
pub enum NavigationView {
    Allow,
    Cancel,
    OpenInBrowser(Seq<char>),
    PostNotifications(Seq<char>),
    OpenMeeting(UrlView),
    OpenDocument(UrlView),
}

impl View for Navigation {
    type V = NavigationView;

    open spec fn view(&self) -> NavigationView {
        match self {
            Navigation::Allow => NavigationView::Allow,
            Navigation::Cancel => NavigationView::Cancel,
            Navigation::OpenInBrowser(target) => NavigationView::OpenInBrowser(target@),
            Navigation::PostNotifications(message) => NavigationView::PostNotifications(message@),
            Navigation::OpenMeeting(url) => NavigationView::OpenMeeting(url@),
            Navigation::OpenDocument(url) => NavigationView::OpenDocument(url@),
        }
    }
}

impl Navigation {
    /// May the window navigate?
    pub fn is_allowed(&self) -> (yes: bool)
        ensures
            yes == (self@ is Allow),
    {
        match self {
            Navigation::Allow => true,
            _ => false,
        }
    }
}

// ---------------------------------------------------------------------------
// Windows of documents and calls
// ---------------------------------------------------------------------------
/// Pages of the client and pages of the window's origin stay in the window;
/// everything else goes to the browser.
pub open spec fn in_origin(own: OriginView, target: UrlView) -> NavigationView {
    if target.scheme == "tauri"@ || page_url::same_origin(own, target.origin()) {
        NavigationView::Allow
    } else {
        NavigationView::OpenInBrowser(target.text)
    }
}

/// A handed-over link goes to the browser; an empty hand-over does nothing.
pub open spec fn link_to_browser(link: Option<Seq<char>>) -> NavigationView {
    match link {
        Some(target) => NavigationView::OpenInBrowser(target),
        None => NavigationView::Cancel,
    }
}

/// The rule for a call window.
pub open spec fn meeting_rule(own: OriginView, target: UrlView) -> NavigationView {
    if target.host == Some(LINK_HOST@) {
        link_to_browser(target.parameter("u"@))
    } else {
        in_origin(own, target)
    }
}

/// The rule for a preview window that shows a page of the origin `own`: the
/// client's own pages and those of the origin stay, everything else opens in
/// the browser.
pub fn keep_in_origin(own: &Origin, target: &PageUrl) -> (outcome: Navigation)
    ensures
        outcome@ == in_origin(own@, target@),
{
    if text::same_text(target.scheme.as_str(), "tauri") || target.is_from(own) {
        Navigation::Allow
    } else {
        Navigation::OpenInBrowser(target.text.clone())
    }
}

/// What a call window does with a handed-over link.
pub fn open_link_in_browser(link: Option<String>) -> (outcome: Navigation)
    ensures
        outcome@ == link_to_browser(text::optional(link)),
{
    match link {
        Some(target) => Navigation::OpenInBrowser(target),
        None => Navigation::Cancel,
    }
}

/// The rule for the window of a call at the origin `own`: links that the page
/// hands over open in the browser, and so does every page of another origin.
pub fn meeting_window_nav(own: &Origin, target: &PageUrl) -> (outcome: Navigation)
    ensures
        outcome@ == meeting_rule(own@, target@),
{
    if target.has_host(LINK_HOST) {
        return open_link_in_browser(target.parameter("u"));
    }
    keep_in_origin(own, target)
}

// ---------------------------------------------------------------------------
// The main window
// ---------------------------------------------------------------------------
/// Where a link goes that the cockpit opens in a new window, given what its
/// text parses to.
pub open spec fn link_route(link: Seq<char>, parsed: Option<UrlView>) -> NavigationView {
    match parsed {
        Some(url) if pages::meeting_room(url) => NavigationView::OpenMeeting(url),
        Some(url) if pages::document(url) => NavigationView::OpenDocument(url),
        _ => NavigationView::OpenInBrowser(link),
    }
}

/// The URL that a text parses to, if it is one.
pub open spec fn parsed_url(input: Seq<char>) -> Option<UrlView> {
    match page_url::url_parts(input) {
        Ok(url) => Some(url),
        Err(_) => None,
    }
}

/// What becomes of a hand-over of notifications.
pub open spec fn notification_message(message: Option<Seq<char>>) -> NavigationView {
    match message {
        Some(text) => NavigationView::PostNotifications(text),
        None => NavigationView::Cancel,
    }
}

/// The view of the server, where the client is connected to one.
pub open spec fn server_view(server: Option<PageUrl>) -> Option<UrlView> {
    match server {
        Some(url) => Some(url@),
        None => None,
    }
}

/// The page is on the site of the server: their host is the same. Scheme and
/// port may differ, as where a server forwards from `http` to `https`; where
/// neither has a host, the scheme is the same.
pub open spec fn on_site(url: UrlView, server: UrlView) -> bool {
    url.host == server.host && (url.host is Some || url.scheme == server.scheme)
}

/// The page is one of the client's own: a local page, or a page of the
/// server's cockpit.
pub open spec fn own_page(url: UrlView, server: Option<UrlView>) -> bool {
    ||| url.scheme == "tauri"@
    ||| server is Some && on_site(url, server->0) && pages::cockpit_page(url, server->0)
}

/// What becomes of a navigation of the main window to an ordinary page.
pub open spec fn page_route(url: UrlView, server: Option<UrlView>) -> NavigationView {
    if own_page(url, server) {
        NavigationView::Allow
    } else if pages::document(url) {
        NavigationView::OpenDocument(url)
    } else {
        NavigationView::OpenInBrowser(url.text)
    }
}

/// The rule for the main window of a client that is connected to `server`.
pub open spec fn main_rule(url: UrlView, server: Option<UrlView>) -> NavigationView {
    if url.host == Some(NOTIFICATION_HOST@) {
        notification_message(url.parameter("n"@))
    } else if url.host == Some(LINK_HOST@) {
        match url.parameter("u"@) {
            Some(link) => link_route(link, parsed_url(link)),
            None => NavigationView::Cancel,
        }
    } else {
        page_route(url, server)
    }
}

/// Where a link goes that the cockpit opens in a new window, given what its
/// text parses to: a call to its window, a document to its window or file,
/// everything else to the browser.
pub fn route_link(link: String, parsed: Option<PageUrl>) -> (outcome: Navigation)
    ensures
        outcome@ == link_route(
            link@,
            match parsed {
                Some(url) => Some(url@),
                None => None,
            },
        ),
{
    match parsed {
        Some(url) => {
            if pages::looks_like_meeting_room(&url) {
                Navigation::OpenMeeting(url)
            } else if pages::is_document_url(&url) {
                Navigation::OpenDocument(url)
            } else {
                Navigation::OpenInBrowser(link)
            }
        },
        None => Navigation::OpenInBrowser(link),
    }
}

/// What becomes of a hand-over of notifications.
pub fn take_notifications(message: Option<String>) -> (outcome: Navigation)
    ensures
        outcome@ == notification_message(text::optional(message)),
{
    match message {
        Some(text) => Navigation::PostNotifications(text),
        None => Navigation::Cancel,
    }
}

/// Is the page on the site of the server?
fn is_on_site(url: &PageUrl, server: &PageUrl) -> (yes: bool)
    ensures
        yes == on_site(url@, server@),
{
    match &server.host {
        Some(host) => url.has_host(host.as_str()),
        None => url.host.is_none() && text::same_text(url.scheme.as_str(), server.scheme.as_str()),
    }
}

/// Is the page one of the client's own?
fn is_own_page(url: &PageUrl, server: &Option<PageUrl>) -> (yes: bool)
    ensures
        yes == own_page(url@, server_view(*server)),
{
    if text::same_text(url.scheme.as_str(), "tauri") {
        return true;
    }
    match server {
        Some(at) => is_on_site(url, at) && pages::is_cockpit_page(url, at),
        None => false,
    }
}

/// What becomes of a navigation of the main window to an ordinary page: the
/// local pages and the cockpit of the server stay, documents go to their
/// window or file, everything else to the browser.
pub fn route_page(url: &PageUrl, server: &Option<PageUrl>) -> (outcome: Navigation)
    ensures
        outcome@ == page_route(url@, server_view(*server)),
{
    if is_own_page(url, server) {
        Navigation::Allow
    } else if pages::is_document_url(url) {
        Navigation::OpenDocument(url.clone())
    } else {
        Navigation::OpenInBrowser(url.text.clone())
    }
}

/// The rule for the main window of a client that is connected to `server`;
/// `None` stands for a client that is not connected yet.
pub fn main_window_nav(url: &PageUrl, server: &Option<PageUrl>) -> (outcome: Navigation)
    ensures
        outcome@ == main_rule(url@, server_view(*server)),
{
    if url.has_host(NOTIFICATION_HOST) {
        return take_notifications(url.parameter("n"));
    }
    if url.has_host(LINK_HOST) {
        return match url.parameter("u") {
            Some(link) => {
                let parsed = match page_url::parse_url(link.as_str()) {
                    Ok(target) => Some(target),
                    Err(_) => None,
                };
                route_link(link, parsed)
            },
            None => Navigation::Cancel,
        };
    }
    route_page(url, server)
}

// ---------------------------------------------------------------------------
// Laws
// ---------------------------------------------------------------------------
/// The main window never navigates to a host that carries messages.
pub proof fn law_messages_are_cancelled(url: UrlView, server: Option<UrlView>)
    requires
        url.host == Some(LINK_HOST@) || url.host == Some(NOTIFICATION_HOST@),
    ensures
        !(main_rule(url, server) is Allow),
{
}

/// A page stays in the main window exactly if it carries no message and is one
/// of the client's own: a local page, or a page of the server's cockpit.
pub proof fn law_main_window_shows(url: UrlView, server: Option<UrlView>)
    ensures
        main_rule(url, server) is Allow <==> {
            &&& url.host != Some(LINK_HOST@)
            &&& url.host != Some(NOTIFICATION_HOST@)
            &&& own_page(url, server)
        },
{
}

/// A page that carries no message, is not the client's own and is no document
/// opens in the system browser.
pub proof fn law_other_pages_go_to_browser(url: UrlView, server: Option<UrlView>)
    requires
        url.host != Some(LINK_HOST@),
        url.host != Some(NOTIFICATION_HOST@),
        !own_page(url, server),
        !pages::document(url),
    ensures
        main_rule(url, server) == NavigationView::OpenInBrowser(url.text),
{
}

/// The main window never shows a page of another site, whatever its path is.
pub proof fn law_other_sites_are_not_shown(url: UrlView, server: Option<UrlView>)
    requires
        url.scheme != "tauri"@,
        server is Some ==> !on_site(url, server->0),
    ensures
        !(main_rule(url, server) is Allow),
{
}

/// A print preview or PDF export that carries no message and is not the
/// client's own page stays with the client.
pub proof fn law_documents_stay_with_the_client(url: UrlView, server: Option<UrlView>)
    requires
        url.host != Some(LINK_HOST@),
        url.host != Some(NOTIFICATION_HOST@),
        !own_page(url, server),
        pages::document(url),
    ensures
        main_rule(url, server) == NavigationView::OpenDocument(url),
{
}

/// The cockpit that the client connects to is shown in the main window, also
/// where the server is not at the root of its host.
pub proof fn law_connected_cockpit_is_shown(server: UrlView)
    requires
        server.host != Some(LINK_HOST@),
        server.host != Some(NOTIFICATION_HOST@),
        pages::leads_to_cockpit(server),
    ensures
        main_rule(server, Some(server)) == NavigationView::Allow,
{
    assert(server.path.is_prefix_of(server.path));
}

/// So is every page under `/agency-os` on the site of the server.
pub proof fn law_cockpit_pages_are_shown(url: UrlView, server: UrlView)
    requires
        url.host != Some(LINK_HOST@),
        url.host != Some(NOTIFICATION_HOST@),
        on_site(url, server),
        pages::under(url.path, "/agency-os/"@),
    ensures
        main_rule(url, Some(server)) == NavigationView::Allow,
{
}

/// A handed-over link to a call opens the call, one to a document opens the
/// document, and every other one opens in the browser, with the text that was
/// handed over.
pub proof fn law_links(url: UrlView, server: Option<UrlView>, link: Seq<char>)
    requires
        url.host == Some(LINK_HOST@),
        url.parameter("u"@) == Some(link),
    ensures
        match parsed_url(link) {
            Some(target) if pages::meeting_room(target) => main_rule(url, server)
                == NavigationView::OpenMeeting(target),
            Some(target) if pages::document(target) => main_rule(url, server)
                == NavigationView::OpenDocument(target),
            _ => main_rule(url, server) == NavigationView::OpenInBrowser(link),
        },
{
    assert(LINK_HOST@ != NOTIFICATION_HOST@) by {
        reveal_strlit("ext.agencyos.invalid");
        reveal_strlit("notify.agencyos.invalid");
        assert(LINK_HOST@[0] == 'e');
        assert(NOTIFICATION_HOST@[0] == 'n');
    }
}

/// A call window opens no further window: it navigates, opens the browser, or
/// does nothing.
pub proof fn law_calls_open_no_windows(own: OriginView, target: UrlView)
    ensures
        meeting_rule(own, target) is Allow || meeting_rule(own, target) is OpenInBrowser
            || meeting_rule(own, target) is Cancel,
{
}

/// A document or call window leaves its origin only for the client's local
/// pages: a page with another scheme, host or port is not shown.
pub proof fn law_windows_keep_their_origin(own: OriginView, target: UrlView)
    requires
        target.scheme != "tauri"@,
        target.origin() != own,
    ensures
        in_origin(own, target) == NavigationView::OpenInBrowser(target.text),
        !(meeting_rule(own, target) is Allow),
{
}

/// The view of a navigation holds what the navigation carries.
pub proof fn law_navigation_view(outcome: Navigation)
    ensures
        match outcome {
            Navigation::Allow => outcome@ is Allow,
            Navigation::Cancel => outcome@ is Cancel,
            Navigation::OpenInBrowser(target) => outcome@ == NavigationView::OpenInBrowser(target@),
            Navigation::PostNotifications(message) => outcome@ == NavigationView::PostNotifications(
                message@,
            ),
            Navigation::OpenMeeting(url) => outcome@ == NavigationView::OpenMeeting(url@),
            Navigation::OpenDocument(url) => outcome@ == NavigationView::OpenDocument(url@),
        },
{
}

/// The view of the server is that of its entry point.
pub proof fn law_server_view(url: PageUrl)
    ensures
        server_view(Some(url)) == Some(url@),
        server_view(None) is None,
{
}

/// The two hosts that carry messages differ.
proof fn lemma_message_hosts_differ()
    ensures
        LINK_HOST@ == "ext.agencyos.invalid"@,
        NOTIFICATION_HOST@ == "notify.agencyos.invalid"@,
        "ext.agencyos.invalid"@ != "notify.agencyos.invalid"@,
{
    reveal_strlit("ext.agencyos.invalid");
    reveal_strlit("notify.agencyos.invalid");
    assert("ext.agencyos.invalid"@[0] == 'e');
    assert("notify.agencyos.invalid"@[0] == 'n');
}

/// On the server's host every page below `/agency-os/` is shown in the main
/// window, whatever the host is called, whatever follows in the path, and
/// whatever the rest of the two URLs is.
pub proof fn law_host_shows_cockpit(url: UrlView, server: UrlView)
    requires
        url.host is Some,
        url.host == server.host,
        url.host != Some("ext.agencyos.invalid"@),
        url.host != Some("notify.agencyos.invalid"@),
        "/agency-os/"@.is_prefix_of(url.path) || url.path == "/agency-os"@,
    ensures
        main_rule(url, Some(server)) == NavigationView::Allow,
{
    pages::law_cockpit_page(url, server);
}

/// An ordinary page is shown in the main window exactly if it is a local page,
/// or a page on the host of the server, or of its scheme where neither has a
/// host, that lies at or below `/agency-os` or at or below the entry point of
/// the cockpit.
pub proof fn law_shown_pages(url: UrlView, server: Option<UrlView>)
    ensures
        page_route(url, server) == NavigationView::Allow <==> {
            ||| url.scheme == "tauri"@
            ||| match server {
                Some(at) => {
                    &&& url.host == at.host
                    &&& url.host is None ==> url.scheme == at.scheme
                    &&& {
                        ||| url.path == "/agency-os"@
                        ||| "/agency-os/"@.is_prefix_of(url.path)
                        ||| "/agency-os/"@.is_suffix_of(at.path) && at.path.is_prefix_of(url.path)
                        ||| "/agency-os/"@.is_suffix_of(at.path) && url.path == at.path.drop_last()
                    }
                },
                None => false,
            }
        },
{
    if server is Some {
        pages::law_cockpit_page(url, server->0);
    }
}

/// An ordinary page that is not shown goes to the document windows if it is an
/// export or a preview, with its URL as it is, and to the browser otherwise,
/// with its text as it is.
pub proof fn law_pages_that_leave(url: UrlView, server: Option<UrlView>)
    requires
        page_route(url, server) != NavigationView::Allow,
    ensures
        page_route(url, server) == if (exists|before: Seq<char>, behind: Seq<char>|
            url.path == #[trigger] (before + "print_format.download_pdf"@ + behind)) || (exists|
            before: Seq<char>,
        |
            url.path == #[trigger] (before + ".pdf"@)) || (exists|rest: Seq<char>|
            url.path == #[trigger] ("/printview"@ + rest)) {
            NavigationView::OpenDocument(url)
        } else {
            NavigationView::OpenInBrowser(url.text)
        },
{
    pages::law_pdf_download(url);
    pages::law_document(url);
}

/// The main window treats every page that carries no message as an ordinary
/// one.
pub proof fn law_ordinary_pages(url: UrlView, server: Option<UrlView>)
    requires
        url.host != Some("ext.agencyos.invalid"@),
        url.host != Some("notify.agencyos.invalid"@),
    ensures
        main_rule(url, server) == page_route(url, server),
{
}

/// What the page hands over in the first parameter `n` is posted, whatever it
/// holds and whatever the server is; where there is no such parameter nothing
/// happens.
pub proof fn law_notifications_are_posted(url: UrlView, server: Option<UrlView>, i: int)
    requires
        url.host == Some("notify.agencyos.invalid"@),
    ensures
        match url.query {
            Some(query) => {
                let pairs = page_url::form_pairs(query);
                &&& 0 <= i < pairs.len() && pairs[i].0 == "n"@ && (forall|j: int|
                    0 <= j < i ==> (#[trigger] pairs[j]).0 != "n"@) ==> main_rule(url, server)
                    == NavigationView::PostNotifications(pairs[i].1)
                &&& (forall|j: int| 0 <= j < pairs.len() ==> (#[trigger] pairs[j]).0 != "n"@)
                    ==> main_rule(url, server) == NavigationView::Cancel
            },
            None => main_rule(url, server) == NavigationView::Cancel,
        },
        match url.parameter("n"@) {
            Some(message) => main_rule(url, server) == NavigationView::PostNotifications(message),
            None => main_rule(url, server) == NavigationView::Cancel,
        },
{
    lemma_message_hosts_differ();
    page_url::law_parameter(url, "n"@, i);
}

/// A message goes out as it came in, whatever it holds.
pub proof fn law_messages_are_kept_whole(message: Seq<char>)
    ensures
        notification_message(Some(message)) == NavigationView::PostNotifications(message),
        notification_message(None) == NavigationView::Cancel,
        link_to_browser(Some(message)) == NavigationView::OpenInBrowser(message),
        link_to_browser(None) == NavigationView::Cancel,
{
}

/// A link to a page at `/agency-os/meet/` or `/agency-os/join/` and a name,
/// whatever the name, the host and the rest of the URL are, opens that call; a
/// link to a preview or an export that is no call opens that document; every
/// other link, and every text that is no URL, opens in the browser as it was
/// handed over.
pub proof fn law_link_route(link: Seq<char>, url: UrlView, name: Seq<char>)
    ensures
        url.path == "/agency-os/meet/"@ + name ==> link_route(link, Some(url))
            == NavigationView::OpenMeeting(url),
        url.path == "/agency-os/join/"@ + name ==> link_route(link, Some(url))
            == NavigationView::OpenMeeting(url),
        !"/agency-os/meet/"@.is_prefix_of(url.path) && !"/agency-os/join/"@.is_prefix_of(url.path)
            ==> link_route(link, Some(url)) == if "/printview"@.is_prefix_of(url.path)
            || ".pdf"@.is_suffix_of(url.path) || (exists|before: Seq<char>, behind: Seq<char>|
            url.path == #[trigger] (before + "print_format.download_pdf"@ + behind)) {
            NavigationView::OpenDocument(url)
        } else {
            NavigationView::OpenInBrowser(link)
        },
        link_route(link, None) == NavigationView::OpenInBrowser(link),
{
    pages::law_meeting_room(url);
    text::law_occurs_in("print_format.download_pdf"@, url.path);
}

/// The first parameter `u` of a hand-over is routed by what it parses to,
/// whatever the server is: a call to its window, a document to its window or
/// file, everything else to the browser. Where there is no such parameter
/// nothing happens.
pub proof fn law_handed_over_links(url: UrlView, server: Option<UrlView>, i: int, name: Seq<char>)
    requires
        url.host == Some("ext.agencyos.invalid"@),
    ensures
        match url.query {
            Some(query) => {
                let pairs = page_url::form_pairs(query);
                &&& 0 <= i < pairs.len() && pairs[i].0 == "u"@ && (forall|j: int|
                    0 <= j < i ==> (#[trigger] pairs[j]).0 != "u"@) ==> match page_url::url_parts(
                    pairs[i].1,
                ) {
                    Ok(target) => {
                        &&& target.path == "/agency-os/meet/"@ + name || target.path
                            == "/agency-os/join/"@ + name ==> main_rule(url, server)
                            == NavigationView::OpenMeeting(target)
                        &&& main_rule(url, server) == link_route(pairs[i].1, Some(target))
                    },
                    Err(_) => main_rule(url, server) == NavigationView::OpenInBrowser(pairs[i].1),
                }
                &&& (forall|j: int| 0 <= j < pairs.len() ==> (#[trigger] pairs[j]).0 != "u"@)
                    ==> main_rule(url, server) == NavigationView::Cancel
            },
            None => main_rule(url, server) == NavigationView::Cancel,
        },
{
    lemma_message_hosts_differ();
    page_url::law_parameter(url, "u"@, i);
    match url.query {
        Some(query) => {
            let pairs = page_url::form_pairs(query);
            if 0 <= i < pairs.len() {
                match page_url::url_parts(pairs[i].1) {
                    Ok(target) => law_link_route(pairs[i].1, target, name),
                    Err(_) => {},
                }
            }
        },
        None => {},
    }
}

/// A window shows every page of its own origin, whatever the path and the
/// query are: where scheme, host and port are those of the window, the page
/// stays. A call window does so too, unless the host carries links.
pub proof fn law_windows_show_their_origin(own: OriginView, target: UrlView)
    requires
        own.host is Some,
        target.scheme == own.scheme,
        target.host == own.host,
        target.port == own.port,
    ensures
        in_origin(own, target) == NavigationView::Allow,
        target.host != Some("ext.agencyos.invalid"@) ==> meeting_rule(own, target)
            == NavigationView::Allow,
{
    page_url::law_same_origin(own, target);
}

/// A preview window shows the client's local pages and the pages of its
/// origin, and sends every other page to the browser, with its text as it is.
/// A call window does the same with every page that hands over no link, and
/// sends the link of the first parameter `u` to the browser as it is.
pub proof fn law_child_windows(own: OriginView, target: UrlView, i: int)
    ensures
        in_origin(own, target) == if target.scheme == "tauri"@ || (own.host is Some && target.scheme
            == own.scheme && target.host == own.host && target.port == own.port) {
            NavigationView::Allow
        } else {
            NavigationView::OpenInBrowser(target.text)
        },
        target.host != Some("ext.agencyos.invalid"@) ==> meeting_rule(own, target) == in_origin(
            own,
            target,
        ),
        target.host == Some("ext.agencyos.invalid"@) ==> match target.query {
            Some(query) => {
                let pairs = page_url::form_pairs(query);
                &&& 0 <= i < pairs.len() && pairs[i].0 == "u"@ && (forall|j: int|
                    0 <= j < i ==> (#[trigger] pairs[j]).0 != "u"@) ==> meeting_rule(own, target)
                    == NavigationView::OpenInBrowser(pairs[i].1)
                &&& (forall|j: int| 0 <= j < pairs.len() ==> (#[trigger] pairs[j]).0 != "u"@)
                    ==> meeting_rule(own, target) == NavigationView::Cancel
            },
            None => meeting_rule(own, target) == NavigationView::Cancel,
        },
{
    page_url::law_same_origin(own, target);
    page_url::law_parameter(target, "u"@, i);
}

/// The page that a window was opened for stays in it: with the origin of a URL
/// that has a host, that URL and every other of its scheme, host and port is
/// shown.
pub proof fn law_windows_show_their_own_page(url: UrlView, other: UrlView)
    requires
        url.host is Some,
        other.scheme == url.scheme && other.host == url.host && other.port == url.port,
    ensures
        in_origin(url.origin(), url) == NavigationView::Allow,
        in_origin(url.origin(), other) == NavigationView::Allow,
{
}

} // verus!
