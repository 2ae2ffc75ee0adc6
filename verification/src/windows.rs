//! The windows beside the main one: print previews and calls.
use vstd::prelude::*;

use crate::downloads;
use crate::downloads::SaveDialog;
use crate::page_url::Origin;
use crate::page_url::OriginView;
use crate::page_url::PageUrl;
use crate::page_url::UrlView;
use crate::pages;
use crate::text;

verus! {

/// The label of the main window.
pub const MAIN_WINDOW: &'static str = "main";

/// The size of a window, in logical pixels.
#[derive(Debug, Clone, Copy, PartialEq, Eq, Structural)]
pub struct WindowSize {
    pub width: u32,
    pub height: u32,
    pub min_width: u32,
    pub min_height: u32,
}

/// A window to create.
#[derive(Debug, PartialEq, Eq)]
pub struct ChildWindow {
    /// The label, by which the window is found again.
    pub label: String,
    pub title: String,
    pub size: WindowSize,
    /// The text of the URL that the window shows.
    pub url: String,
    /// The origin whose pages stay in the window.
    pub origin: Origin,
    /// Does the page hand its links over?
    pub intercepts_links: bool,
}

/// The contents of a [`ChildWindow`].
pub struct ChildWindowView {
    pub label: Seq<char>,
    pub title: Seq<char>,
    pub size: WindowSize,
    pub url: Seq<char>,
    pub origin: OriginView,
    pub intercepts_links: bool,
}

impl View for ChildWindow {
    type V = ChildWindowView;

    open spec fn view(&self) -> ChildWindowView {
        ChildWindowView {
            label: self.label@,
            title: self.title@,
            size: self.size,
            url: self.url@,
            origin: self.origin@,
            intercepts_links: self.intercepts_links,
        }
    }
}

/// The size of the main window.
pub fn main_window_size() -> (size: WindowSize)
    ensures
        size == (WindowSize { width: 1440, height: 900, min_width: 800, min_height: 600 }),
{
    WindowSize { width: 1440, height: 900, min_width: 800, min_height: 600 }
}

// ---------------------------------------------------------------------------
// Documents
// ---------------------------------------------------------------------------
/// How a document is opened; `P` is the shell's type of file paths.
#[derive(Debug, PartialEq, Eq)]
pub enum DocumentRoute<P> {
    /// Ask where to save it, and download it.
    Save(SaveDialog<P>),
    /// Show it in a window of its own.
    Preview,
}

/// Opens a document, given the download directory, where it is known: a PDF
/// export is saved, anything else is shown.
pub fn open_document_window<P>(url: &PageUrl, directory: Option<P>) -> (route: DocumentRoute<P>)
    ensures
        match route {
            DocumentRoute::Save(dialog) => {
                &&& pages::pdf_download(url@)
                &&& dialog@ == downloads::save_dialog(pages::pdf_name(url@.pairs()), directory)
            },
            DocumentRoute::Preview => !pages::pdf_download(url@),
        },
{
    if pages::looks_like_pdf_download(url) {
        DocumentRoute::Save(downloads::prompt_and_download_pdf(url, directory))
    } else {
        DocumentRoute::Preview
    }
}

/// The window for the print preview at a URL, given the window's number.
pub open spec fn preview_window(url: UrlView, seq: nat) -> ChildWindowView {
    ChildWindowView {
        label: pages::preview_label(seq),
        title: "Preview"@,
        size: WindowSize { width: 900, height: 1160, min_width: 480, min_height: 480 },
        url: url.text,
        origin: url.origin(),
        intercepts_links: false,
    }
}

/// The number behind a number, in the range of machine integers.
pub open spec fn following(number: nat) -> nat {
    if number >= usize::MAX {
        0
    } else {
        number + 1
    }
}

/// Numbers the preview windows.
#[derive(Debug)]
pub struct PreviewCounter {
    next: usize,
}

impl View for PreviewCounter {
    type V = nat;

    /// The number of the next preview window.
    closed spec fn view(&self) -> nat {
        self.next as nat
    }
}

impl Default for PreviewCounter {
    /// The counter before the first preview window.
    fn default() -> (counter: PreviewCounter)
        ensures
            counter@ == 0,
    {
        PreviewCounter { next: 0 }
    }
}

impl PreviewCounter {
    /// The window for the print preview at a URL, which takes the next number.
    pub fn build_preview_window(&mut self, url: &PageUrl) -> (window: ChildWindow)
        ensures
            window@ == preview_window(url@, old(self)@),
            final(self)@ == following(old(self)@),
    {
        let seq: usize = self.next;
        if seq == usize::MAX {
            self.next = 0;
        } else {
            self.next = seq + 1;
        }
        ChildWindow {
            label: pages::preview_window_label(seq),
            title: "Preview".to_string(),
            size: WindowSize { width: 900, height: 1160, min_width: 480, min_height: 480 },
            url: url.text.clone(),
            origin: url.origin(),
            intercepts_links: false,
        }
    }
}

// ---------------------------------------------------------------------------
// Calls
// ---------------------------------------------------------------------------
/// How a call is opened.
#[derive(Debug, PartialEq, Eq)]
pub enum MeetingRoute {
    /// Bring the window with this label to the front.
    Focus(String),
    /// Create a window.
    Build(ChildWindow),
}

/// The contents of a [`MeetingRoute`].
pub enum MeetingRouteView {
    Focus(Seq<char>),
    Build(ChildWindowView),
}

impl View for MeetingRoute {
    type V = MeetingRouteView;

    open spec fn view(&self) -> MeetingRouteView {
        match self {
            MeetingRoute::Focus(label) => MeetingRouteView::Focus(label@),
            MeetingRoute::Build(window) => MeetingRouteView::Build(window@),
        }
    }
}

/// The window for the call at a URL.
pub open spec fn meeting_window(url: UrlView) -> ChildWindowView {
    ChildWindowView {
        label: pages::meeting_label(url),
        title: "Agency OS — Meeting"@,
        size: WindowSize { width: 1200, height: 820, min_width: 720, min_height: 520 },
        url: url.text,
        origin: url.origin(),
        intercepts_links: true,
    }
}

/// How the call at a URL is opened, given whether its window is open already.
pub open spec fn meeting_route(url: UrlView, window_open: bool) -> MeetingRouteView {
    if window_open {
        MeetingRouteView::Focus(pages::meeting_label(url))
    } else {
        MeetingRouteView::Build(meeting_window(url))
    }
}

/// How the call at a URL is opened, given the labels of the open windows: a
/// call that has a window keeps it, any other gets one.
pub fn build_meeting_window(url: &PageUrl, open_labels: &Vec<String>) -> (route: MeetingRoute)
    ensures
        route@ == meeting_route(
            url@,
            text::texts(open_labels@).contains(pages::meeting_label(url@)),
        ),
{
    let label = pages::meeting_window_label(url);
    if text::is_listed(open_labels, label.as_str()) {
        return MeetingRoute::Focus(label);
    }
    MeetingRoute::Build(
        ChildWindow {
            label: label,
            title: "Agency OS — Meeting".to_string(),
            size: WindowSize { width: 1200, height: 820, min_width: 720, min_height: 520 },
            url: url.text.clone(),
            origin: url.origin(),
            intercepts_links: true,
        },
    )
}

/// The URL to open in the browser behind an attempt to create a window: the
/// window's own if it could not be created.
pub fn fallback_url(window: &ChildWindow, created: bool) -> (url: Option<String>)
    ensures
        text::optional(url) == if created {
            None
        } else {
            Some(window@.url)
        },
{
    if created {
        None
    } else {
        Some(window.url.clone())
    }
}

// ---------------------------------------------------------------------------
// Laws
// ---------------------------------------------------------------------------
/// The number of the preview window that is opened behind `n` others.
pub open spec fn preview_number(n: nat) -> nat
    decreases n,
{
    if n == 0 {
        0
    } else {
        following(preview_number((n - 1) as nat))
    }
}

/// The preview windows are numbered from zero.
pub proof fn law_preview_numbers(n: nat)
    requires
        n <= usize::MAX,
    ensures
        preview_number(n) == n,
    decreases n,
{
    if n > 0 {
        law_preview_numbers((n - 1) as nat);
    }
}

/// No two preview windows share a label, whatever they show, as long as the
/// numbers last.
pub proof fn law_preview_windows_are_distinct(m: nat, n: nat, first: UrlView, second: UrlView)
    requires
        m != n,
        m <= usize::MAX,
        n <= usize::MAX,
    ensures
        preview_window(first, preview_number(m)).label != preview_window(
            second,
            preview_number(n),
        ).label,
{
    law_preview_numbers(m);
    law_preview_numbers(n);
    pages::law_preview_labels_distinct(m, n);
}

/// The labels of the open windows after a call was opened.
pub open spec fn labels_after(open: Set<Seq<char>>, url: UrlView) -> Set<Seq<char>> {
    match meeting_route(url, open.contains(pages::meeting_label(url))) {
        MeetingRouteView::Focus(_) => open,
        MeetingRouteView::Build(window) => open.insert(window.label),
    }
}

/// A call has one window: behind the opening of a call, every URL of the same
/// meeting, be it the room or the page where guests join it, brings that window
/// to the front and opens no second one.
pub proof fn law_one_window_per_call(open: Set<Seq<char>>, first: UrlView, second: UrlView)
    requires
        pages::meeting_id(first.path) == pages::meeting_id(second.path),
    ensures
        labels_after(open, first).contains(pages::meeting_label(first)),
        meeting_route(
            second,
            labels_after(open, first).contains(pages::meeting_label(second)),
        ) == MeetingRouteView::Focus(pages::meeting_label(first)),
        labels_after(labels_after(open, first), second) == labels_after(open, first),
{
    pages::law_meeting_label_stable(first, second);
}

/// A call window is never created under a label that is taken.
pub proof fn law_new_call_windows_are_new(open: Set<Seq<char>>, url: UrlView)
    ensures
        match meeting_route(url, open.contains(pages::meeting_label(url))) {
            MeetingRouteView::Build(window) => !open.contains(window.label),
            MeetingRouteView::Focus(label) => open.contains(label),
        },
{
}

/// The view of a window, and of the way a call is opened, holds what it
/// carries.
pub proof fn law_window_view(window: ChildWindow, label: String)
    ensures
        window@.label == window.label@ && window@.title == window.title@,
        window@.url == window.url@ && window@.origin == window.origin@,
        window@.size == window.size && window@.intercepts_links == window.intercepts_links,
        MeetingRoute::Focus(label)@ == MeetingRouteView::Focus(label@),
        MeetingRoute::Build(window)@ == MeetingRouteView::Build(window@),
{
}

/// A preview window shows the URL that it was opened for, keeps to the scheme,
/// host and port of that URL, and is labelled with its number; its links are
/// not handed over.
pub proof fn law_preview_window(url: UrlView, seq: nat)
    ensures
        ({
            let window = preview_window(url, seq);
            &&& window.url == url.text
            &&& window.origin.scheme == url.scheme
            &&& window.origin.host == url.host
            &&& window.origin.port == url.port
            &&& window.label == pages::preview_label(seq)
            &&& window.title == "Preview"@
            &&& !window.intercepts_links
            &&& window.size.width == 900 && window.size.height == 1160
            &&& window.size.min_width == 480 && window.size.min_height == 480
        }),
{
}

/// A call whose window is not open gets one that shows the URL of the call,
/// keeps to its scheme, host and port, is labelled for the meeting, and hands
/// its links over; a call whose window is open gets none, and that window comes
/// to the front.
pub proof fn law_call_window(url: UrlView)
    ensures
        meeting_route(url, true) == MeetingRouteView::Focus(pages::meeting_label(url)),
        match meeting_route(url, false) {
            MeetingRouteView::Build(window) => {
                &&& window.url == url.text
                &&& window.origin.scheme == url.scheme
                &&& window.origin.host == url.host
                &&& window.origin.port == url.port
                &&& window.label == pages::meeting_label(url)
                &&& window.title == "Agency OS — Meeting"@
                &&& window.intercepts_links
                &&& window.size.width == 1200 && window.size.height == 820
                &&& window.size.min_width == 720 && window.size.min_height == 520
            },
            MeetingRouteView::Focus(_) => false,
        },
{
}

/// The room of a meeting and the page where guests join it, on whatever host
/// and however closed, share one window: once either is open, the other brings
/// it to the front.
pub proof fn law_room_and_join_page_share_window(
    open: Set<Seq<char>>,
    room: UrlView,
    join: UrlView,
    name: Seq<char>,
)
    requires
        name.len() > 0,
        forall|i: int| 0 <= i < name.len() ==> #[trigger] name[i] != '/',
        room.path == "/agency-os/meet/"@ + name,
        join.path == "/agency-os/join/"@ + name,
        open.contains("call-"@ + pages::sanitised(name)),
    ensures
        meeting_route(room, open.contains(pages::meeting_label(room))) == MeetingRouteView::Focus(
            "call-"@ + pages::sanitised(name),
        ),
        meeting_route(join, open.contains(pages::meeting_label(join))) == MeetingRouteView::Focus(
            "call-"@ + pages::sanitised(name),
        ),
{
    reveal_strlit("/agency-os/meet/");
    reveal_strlit("/agency-os/join/");
    let none = Seq::<char>::empty();
    assert(room.path =~= "/agency-os/meet/"@ + name + none);
    assert(join.path =~= "/agency-os/join/"@ + name + none);
    pages::law_meeting_label(room, "/agency-os/meet/"@, name, none);
    pages::law_meeting_label(join, "/agency-os/join/"@, name, none);
}

/// The numbers of the preview windows go up by one, and begin anew behind the
/// last one.
pub proof fn law_following(number: nat)
    ensures
        number < usize::MAX ==> following(number) == number + 1,
        following(usize::MAX as nat) == 0,
{
}

} // verus!
