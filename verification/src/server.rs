//! The server that the client is connected to: what is remembered of it, and
//! which page the main window shows.
use vstd::prelude::*;

use crate::page_url;
use crate::page_url::PageUrl;
use crate::page_url::UrlView;
use crate::text;

verus! {

/// The name of the file, in the client's configuration directory, that holds
/// the URL of the server.
pub const SERVER_FILE: &'static str = "server-url.txt";

/// The path of the local page where the user enters the server's URL.
pub const CONNECT_PAGE: &'static str = "index.html";

/// The error of a command that needs the main window and does not find it.
pub const NO_MAIN_WINDOW: &'static str = "main window not found";

// ---------------------------------------------------------------------------
// Remembering the server
// ---------------------------------------------------------------------------
/// What is written to the server file for a URL that the user entered.
pub open spec fn stored_url(url: Seq<char>) -> Seq<char> {
    text::trimmed(url)
}

/// The server's URL, given what the server file holds; `None` stands for a
/// file that cannot be read.
pub open spec fn saved_url(contents: Option<Seq<char>>) -> Option<Seq<char>> {
    match contents {
        Some(held) if text::trimmed(held).len() > 0 => Some(text::trimmed(held)),
        _ => None,
    }
}

/// What to write to the server file for a URL that the user entered: the URL
/// without the white space around it.
pub fn set_server_url(url: &str) -> (contents: String)
    ensures
        contents@ == stored_url(url@),
{
    text::trim(url)
}

/// The server's URL, given what the server file holds, or `None` for a file
/// that cannot be read. White space around the URL is ignored, and a file with
/// nothing else names no server.
pub fn read_saved_url(contents: Option<String>) -> (url: Option<String>)
    ensures
        text::optional(url) == saved_url(text::optional(contents)),
{
    match contents {
        Some(held) => {
            let value = text::trim(held.as_str());
            if value.as_str().is_empty() {
                None
            } else {
                Some(value)
            }
        },
        None => None,
    }
}

// ---------------------------------------------------------------------------
// The cockpit
// ---------------------------------------------------------------------------
/// The entry point of the cockpit on a server.
pub open spec fn cockpit_url(base: Seq<char>) -> Seq<char> {
    text::without_trailing_slashes(base) + "/agency-os/"@
}

/// The entry point of the cockpit on the server with the given URL.
pub fn app_target(base: &str) -> (target: String)
    ensures
        target@ == cockpit_url(base@),
{
    let trunk = text::trim_end_slashes(base);
    text::joined(trunk.as_str(), "/agency-os/")
}

/// What the command that opens a server answers, given what the entry point of
/// its cockpit parses to and whether there is a main window.
pub open spec fn open_outcome(
    parsed: Result<UrlView, Seq<char>>,
    main_window: bool,
) -> Result<UrlView, Seq<char>> {
    match parsed {
        Ok(url) if !main_window => Err(NO_MAIN_WINDOW@),
        _ => parsed,
    }
}

/// What the command that opens a server answers, given what the entry point of
/// its cockpit parses to and whether there is a main window: the page to
/// navigate to, or a message.
pub fn open_parsed(parsed: Result<PageUrl, String>, main_window: bool) -> (outcome: Result<
    PageUrl,
    String,
>)
    ensures
        page_url::parse_view(outcome) == open_outcome(page_url::parse_view(parsed), main_window),
{
    match parsed {
        Ok(url) => {
            if main_window {
                Ok(url)
            } else {
                Err(NO_MAIN_WINDOW.to_string())
            }
        },
        Err(message) => Err(message),
    }
}

/// The page that the main window, if there is one, has to navigate to so that
/// it shows the cockpit of the given server.
pub fn open_server(base: &str, main_window: bool) -> (outcome: Result<PageUrl, String>)
    ensures
        page_url::parse_view(outcome) == open_outcome(
            page_url::url_parts(cockpit_url(base@)),
            main_window,
        ),
{
    let target = app_target(base);
    open_parsed(page_url::parse_url(target.as_str()), main_window)
}

// ---------------------------------------------------------------------------
// The first page
// ---------------------------------------------------------------------------
/// The page with which the main window opens.
#[derive(Debug, PartialEq, Eq)]
pub enum InitialPage {
    /// The cockpit of a server.
    Cockpit(PageUrl),
    /// A local page, by its path.
    Local(String),
}

/// The texts of an [`InitialPage`].
pub enum InitialPageView {
    Cockpit(UrlView),
    Local(Seq<char>),
}

impl View for InitialPage {
    type V = InitialPageView;

    open spec fn view(&self) -> InitialPageView {
        match self {
            InitialPage::Cockpit(url) => InitialPageView::Cockpit(url@),
            InitialPage::Local(path) => InitialPageView::Local(path@),
        }
    }
}

impl InitialPageView {
    /// The server that the client is connected to when it opens with this
    /// page.
    pub open spec fn server(self) -> Option<UrlView> {
        match self {
            InitialPageView::Cockpit(url) => Some(url),
            InitialPageView::Local(_) => None,
        }
    }
}

impl InitialPage {
    /// The server that the client is connected to when it opens with this
    /// page, by the entry point of its cockpit.
    pub fn server(&self) -> (server: Option<PageUrl>)
        ensures
            match server {
                Some(url) => self@.server() == Some(url@),
                None => self@.server() is None,
            },
    {
        match self {
            InitialPage::Cockpit(url) => Some(url.clone()),
            InitialPage::Local(_) => None,
        }
    }
}

/// The view of a choice of the first page.
pub open spec fn initial_view(chosen: Result<InitialPage, String>) -> Result<
    InitialPageView,
    Seq<char>,
> {
    match chosen {
        Ok(page) => Ok(page@),
        Err(message) => Err(message@),
    }
}

/// The first page for a remembered server, given what the entry point of its
/// cockpit parses to.
pub open spec fn cockpit_page(parsed: Result<UrlView, Seq<char>>) -> Result<
    InitialPageView,
    Seq<char>,
> {
    match parsed {
        Ok(url) => Ok(InitialPageView::Cockpit(url)),
        Err(message) => Err(message),
    }
}

/// The first page, given the remembered server.
pub open spec fn first_page(saved: Option<Seq<char>>) -> Result<InitialPageView, Seq<char>> {
    match saved {
        Some(base) => cockpit_page(page_url::url_parts(cockpit_url(base))),
        None => Ok(InitialPageView::Local(CONNECT_PAGE@)),
    }
}

/// The first page for a remembered server, given what the entry point of its
/// cockpit parses to.
pub fn initial_cockpit(parsed: Result<PageUrl, String>) -> (chosen: Result<InitialPage, String>)
    ensures
        initial_view(chosen) == cockpit_page(page_url::parse_view(parsed)),
{
    match parsed {
        Ok(url) => Ok(InitialPage::Cockpit(url)),
        Err(message) => Err(message),
    }
}

/// The page with which the main window opens: the cockpit of the remembered
/// server, or the local page where the user enters one.
pub fn initial_page(saved: Option<String>) -> (chosen: Result<InitialPage, String>)
    ensures
        initial_view(chosen) == first_page(text::optional(saved)),
{
    match saved {
        Some(base) => {
            let target = app_target(base.as_str());
            initial_cockpit(page_url::parse_url(target.as_str()))
        },
        None => Ok(InitialPage::Local(CONNECT_PAGE.to_string())),
    }
}

// ---------------------------------------------------------------------------
// Laws
// ---------------------------------------------------------------------------
/// A server is remembered: what is stored for a URL reads back as that URL
/// without the white space around it, and a URL of nothing but white space
/// reads back as no server.
pub proof fn law_server_is_remembered(url: Seq<char>)
    ensures
        saved_url(Some(stored_url(url))) == if text::trimmed(url).len() > 0 {
            Some(text::trimmed(url))
        } else {
            None
        },
{
    text::law_trimmed_twice(url);
}

/// Storing what was read back changes nothing.
pub proof fn law_saved_url_is_stable(contents: Option<Seq<char>>)
    requires
        saved_url(contents) is Some,
    ensures
        stored_url(saved_url(contents)->0) == saved_url(contents)->0,
        saved_url(Some(stored_url(saved_url(contents)->0))) == saved_url(contents),
{
    text::law_trimmed_twice(contents->0);
}

/// After a start the client shows the cockpit of the server that was stored
/// last, or the connect page where none was.
pub proof fn law_restart_shows_the_server(url: Seq<char>)
    ensures
        first_page(saved_url(Some(stored_url(url)))) == if text::trimmed(url).len() > 0 {
            cockpit_page(page_url::url_parts(cockpit_url(text::trimmed(url))))
        } else {
            Ok(InitialPageView::Local(CONNECT_PAGE@))
        },
{
    law_server_is_remembered(url);
}

/// Without a server file the client shows the connect page.
pub proof fn law_no_server_shows_the_connect_page()
    ensures
        first_page(saved_url(None)) == Ok::<InitialPageView, Seq<char>>(
            InitialPageView::Local(CONNECT_PAGE@),
        ),
{
}

/// Slashes at the end of the server's URL make no difference.
pub proof fn law_trailing_slashes_do_not_matter(base: Seq<char>)
    ensures
        cockpit_url(base.push('/')) == cockpit_url(base),
{
    assert(base.push('/').drop_last() =~= base);
}

/// The entry point of the cockpit is the server's URL followed by
/// `/agency-os/`, with one slash between them.
pub proof fn law_cockpit_url(base: Seq<char>)
    requires
        base.len() == 0 || base.last() != '/',
    ensures
        cockpit_url(base) == base + "/agency-os/"@,
{
}

/// A URL is stored and read without the white space around it and otherwise
/// as it was entered, character by character; of nothing but white space,
/// nothing is stored and no server is read.
pub proof fn law_stored_as_entered(left: Seq<char>, url: Seq<char>, right: Seq<char>)
    requires
        forall|i: int| 0 <= i < left.len() ==> text::white_space(#[trigger] left[i]),
        forall|i: int| 0 <= i < right.len() ==> text::white_space(#[trigger] right[i]),
        url.len() > 0 ==> !text::white_space(url[0]) && !text::white_space(url.last()),
    ensures
        stored_url(left + url + right) == url,
        saved_url(Some(left + url + right)) == if url.len() > 0 {
            Some(url)
        } else {
            None
        },
        saved_url(None) is None,
{
    text::law_trimmed_core(left, url, right);
}

/// Whatever slashes close the URL of a server, the entry point of its cockpit
/// is the URL without them and `/agency-os/`.
pub proof fn law_entry_point(trunk: Seq<char>, slashes: Seq<char>)
    requires
        trunk.len() > 0 ==> trunk.last() != '/',
        forall|i: int| 0 <= i < slashes.len() ==> #[trigger] slashes[i] == '/',
    ensures
        cockpit_url(trunk + slashes) == trunk + "/agency-os/"@,
{
    text::law_trunk(trunk, slashes);
}

/// Opening a server leads to the page that its entry point parses to, whatever
/// that is. A text that is no URL is answered with the message of the parser,
/// with or without a main window; a URL without a main window with
/// `main window not found`.
pub proof fn law_open_server(page: UrlView, message: Seq<char>, main_window: bool)
    ensures
        open_outcome(Ok(page), true) == Ok::<UrlView, Seq<char>>(page),
        open_outcome(Ok(page), false) == Err::<UrlView, Seq<char>>("main window not found"@),
        open_outcome(Err(message), main_window) == Err::<UrlView, Seq<char>>(message),
{
}

/// The client opens with the cockpit of the remembered server, whatever its
/// URL is, and is connected to it; a URL that cannot be parsed is an error with
/// the parser's message. Without a remembered server it opens with the page
/// `index.html` and is connected to none.
pub proof fn law_first_page(trunk: Seq<char>, slashes: Seq<char>)
    requires
        trunk.len() > 0 ==> trunk.last() != '/',
        forall|i: int| 0 <= i < slashes.len() ==> #[trigger] slashes[i] == '/',
    ensures
        match page_url::url_parts(trunk + "/agency-os/"@) {
            Ok(url) => {
                &&& first_page(Some(trunk + slashes)) == Ok::<InitialPageView, Seq<char>>(
                    InitialPageView::Cockpit(url),
                )
                &&& InitialPageView::Cockpit(url).server() == Some(url)
            },
            Err(message) => first_page(Some(trunk + slashes)) == Err::<InitialPageView, Seq<char>>(
                message,
            ),
        },
        first_page(None) == Ok::<InitialPageView, Seq<char>>(
            InitialPageView::Local("index.html"@),
        ),
        InitialPageView::Local("index.html"@).server() is None,
{
    law_entry_point(trunk, slashes);
}

/// What the first page is depends on the parse alone, which it hands on.
pub proof fn law_cockpit_page_hands_on(url: UrlView, message: Seq<char>, path: Seq<char>)
    ensures
        cockpit_page(Ok(url)) == Ok::<InitialPageView, Seq<char>>(InitialPageView::Cockpit(url)),
        cockpit_page(Err(message)) == Err::<InitialPageView, Seq<char>>(message),
        InitialPageView::Cockpit(url).server() == Some(url),
        InitialPageView::Local(path).server() is None,
{
}

/// The view of a first page, and of a choice of one, holds what it carries.
pub proof fn law_initial_view(url: PageUrl, path: String, message: String)
    ensures
        initial_view(Ok(InitialPage::Cockpit(url))) == Ok::<InitialPageView, Seq<char>>(
            InitialPageView::Cockpit(url@),
        ),
        initial_view(Ok(InitialPage::Local(path))) == Ok::<InitialPageView, Seq<char>>(
            InitialPageView::Local(path@),
        ),
        initial_view(Err(message)) == Err::<InitialPageView, Seq<char>>(message@),
{
}

} // verus!
