//! PDF exports: where they are saved, and what the user is told.
//!
//! The user chooses the place before the download begins, so the places wait
//! in a queue until the downloads that they belong to ask for them. `P` is the
//! shell's type of file paths, which this module only hands on.
use std::collections::VecDeque;

use vstd::prelude::*;

use crate::notices;
use crate::notices::Notification;
use crate::notices::NotificationView;
use crate::page_url::PageUrl;
use crate::pages;
use crate::scripts;
use crate::text;

verus! {

/// The title of the notification about a finished download.
pub const DOWNLOAD_COMPLETE: &'static str = "Download complete";

/// What a finished download is called whose file name is not known.
pub const UNNAMED_DOWNLOAD: &'static str = "PDF";

// ---------------------------------------------------------------------------
// The dialog
// ---------------------------------------------------------------------------
/// The dialog that asks where to save an export.
#[derive(Debug, PartialEq, Eq)]
pub struct SaveDialog<P> {
    pub title: String,
    pub file_name: String,
    /// The name of the only kind of files that is offered.
    pub filter_name: String,
    /// The extension of these files.
    pub filter_extension: String,
    /// The directory in which the dialog starts, if it is to start in one.
    pub directory: Option<P>,
}

/// The contents of a [`SaveDialog`].
pub struct SaveDialogView<P> {
    pub title: Seq<char>,
    pub file_name: Seq<char>,
    pub filter_name: Seq<char>,
    pub filter_extension: Seq<char>,
    pub directory: Option<P>,
}

impl<P> View for SaveDialog<P> {
    type V = SaveDialogView<P>;

    open spec fn view(&self) -> SaveDialogView<P> {
        SaveDialogView {
            title: self.title@,
            file_name: self.file_name@,
            filter_name: self.filter_name@,
            filter_extension: self.filter_extension@,
            directory: self.directory,
        }
    }
}

/// The dialog for an export with the given suggested file name; it starts in
/// the download directory, where that is known.
pub open spec fn save_dialog<P>(file_name: Seq<char>, directory: Option<P>) -> SaveDialogView<P> {
    SaveDialogView {
        title: "Save PDF"@,
        file_name: file_name,
        filter_name: "PDF"@,
        filter_extension: "pdf"@,
        directory: directory,
    }
}

/// The dialog that asks where to save the export at a URL, given the download
/// directory, where it is known.
pub fn prompt_and_download_pdf<P>(url: &PageUrl, directory: Option<P>) -> (dialog: SaveDialog<P>)
    ensures
        dialog@ == save_dialog(pages::pdf_name(url@.pairs()), directory),
{
    SaveDialog {
        title: "Save PDF".to_string(),
        file_name: pages::suggested_pdf_name(url),
        filter_name: "PDF".to_string(),
        filter_extension: "pdf".to_string(),
        directory: directory,
    }
}

// ---------------------------------------------------------------------------
// The queue of chosen places
// ---------------------------------------------------------------------------
/// The places that were chosen and wait for their downloads, and the file name
/// of the download that began last.
pub struct PendingDownloads<P> {
    queue: VecDeque<P>,
    in_flight: Option<String>,
}

/// The contents of [`PendingDownloads`].
pub struct PendingView<P> {
    pub queue: Seq<P>,
    pub in_flight: Option<Seq<char>>,
}

impl<P> View for PendingDownloads<P> {
    type V = PendingView<P>;

    closed spec fn view(&self) -> PendingView<P> {
        PendingView { queue: self.queue@, in_flight: text::optional(self.in_flight) }
    }
}

/// Where a download is saved.
pub enum SaveTarget<P> {
    /// At a place that the user chose.
    Chosen(P),
    /// In a directory, under a name.
    InDirectory(P, String),
    /// Under a name, with no directory known.
    Named(String),
}

/// The contents of a [`SaveTarget`].
pub enum SaveTargetView<P> {
    Chosen(P),
    InDirectory(P, Seq<char>),
    Named(Seq<char>),
}

impl<P> View for SaveTarget<P> {
    type V = SaveTargetView<P>;

    open spec fn view(&self) -> SaveTargetView<P> {
        match self {
            SaveTarget::Chosen(place) => SaveTargetView::Chosen(*place),
            SaveTarget::InDirectory(directory, name) => SaveTargetView::InDirectory(
                *directory,
                name@,
            ),
            SaveTarget::Named(name) => SaveTargetView::Named(name@),
        }
    }
}

/// What to do about a download that has ended.
#[derive(Debug, PartialEq, Eq)]
pub struct FinishedDownload {
    /// The script to run in the main window.
    pub script: String,
    /// The notification to post, if any.
    pub notification: Option<Notification>,
}

impl<P> PendingView<P> {
    /// Nothing chosen, nothing begun.
    pub open spec fn empty() -> PendingView<P> {
        PendingView { queue: Seq::empty(), in_flight: None }
    }

    /// After the user chose a place, or chose none.
    pub open spec fn after_choice(self, chosen: Option<P>) -> PendingView<P> {
        match chosen {
            Some(place) => PendingView { queue: self.queue.push(place), ..self },
            None => self,
        }
    }

    /// After a download asked for its place.
    pub open spec fn after_request(self) -> PendingView<P> {
        if self.queue.len() > 0 {
            PendingView { queue: self.queue.drop_first(), ..self }
        } else {
            self
        }
    }

    /// The place for a download, given the download directory, where it is
    /// known, and the file name that its URL suggests. A place that nobody
    /// chose is in that directory, whatever the name holds.
    pub open spec fn target(self, directory: Option<P>, name: Seq<char>) -> SaveTargetView<P> {
        if self.queue.len() > 0 {
            SaveTargetView::Chosen(self.queue[0])
        } else {
            match directory {
                Some(known) => SaveTargetView::InDirectory(known, pages::contained(name)),
                None => SaveTargetView::Named(name),
            }
        }
    }

    /// After a download began under a file name, where that can be read.
    pub open spec fn after_start(self, file_name: Option<Seq<char>>) -> PendingView<P> {
        PendingView { in_flight: file_name, ..self }
    }

    /// The notification about a finished download.
    pub open spec fn finished(self, success: bool) -> Option<NotificationView> {
        if success {
            let name = match self.in_flight {
                Some(name) => name,
                None => UNNAMED_DOWNLOAD@,
            };
            Some(NotificationView { title: DOWNLOAD_COMPLETE@, body: "Saved "@ + name })
        } else {
            None
        }
    }
}

impl<P> Default for PendingDownloads<P> {
    /// Nothing chosen, nothing begun.
    fn default() -> (pending: PendingDownloads<P>)
        ensures
            pending@ == PendingView::<P>::empty(),
    {
        PendingDownloads { queue: VecDeque::new(), in_flight: None }
    }
}

impl<P> PendingDownloads<P> {
    /// Takes the user's answer to the dialog for the export at a URL. A chosen
    /// place joins the queue, and the script that begins the download is
    /// returned; `None` stands for a dialog that was cancelled, or for an
    /// answer that is no file, and then nothing happens.
    pub fn save_location_chosen(&mut self, chosen: Option<P>, url: &str) -> (script: Option<String>)
        ensures
            final(self)@ == old(self)@.after_choice(chosen),
            text::optional(script) == if chosen is Some {
                Some(scripts::start_script(scripts::json_string(url@)))
            } else {
                None
            },
    {
        match chosen {
            Some(place) => {
                self.queue.push_back(place);
                Some(scripts::download_start_js(url))
            },
            None => None,
        }
    }

    /// The place for the download of a URL that now begins: the place at the
    /// head of the queue, which leaves it. For a download that nobody was
    /// asked about it is the suggested name in the download directory, or the
    /// bare name where that directory is not known; a name that could lead out
    /// of the directory has its slashes replaced.
    pub fn download_requested(&mut self, url: &PageUrl, directory: Option<P>) -> (target: SaveTarget<
        P,
    >)
        ensures
            final(self)@ == old(self)@.after_request(),
            target@ == old(self)@.target(directory, pages::pdf_name(url@.pairs())),
    {
        match self.queue.pop_front() {
            Some(place) => {
                assert(self@.queue =~= old(self)@.queue.drop_first());
                SaveTarget::Chosen(place)
            },
            None => {
                let suggested = pages::suggested_pdf_name(url);
                match directory {
                    Some(known) => SaveTarget::InDirectory(
                        known,
                        pages::contained_name(suggested.as_str()),
                    ),
                    None => SaveTarget::Named(suggested),
                }
            },
        }
    }

    /// Notes the file name of the download that now begins; `None` stands for
    /// a path without a readable file name.
    pub fn download_started(&mut self, file_name: Option<String>)
        ensures
            final(self)@ == old(self)@.after_start(text::optional(file_name)),
    {
        self.in_flight = file_name;
    }

    /// What to do about a download that has ended: the note is taken away in
    /// any case, and a success is announced.
    pub fn download_finished(&self, success: bool) -> (outcome: FinishedDownload)
        ensures
            outcome.script@ == scripts::done_script(),
            notices::optional_notification(outcome.notification) == self@.finished(success),
    {
        let script = scripts::download_done_js();
        if !success {
            return FinishedDownload { script: script, notification: None };
        }
        let name = match &self.in_flight {
            Some(name) => name.clone(),
            None => UNNAMED_DOWNLOAD.to_string(),
        };
        let notification = Notification {
            title: DOWNLOAD_COMPLETE.to_string(),
            body: text::joined("Saved ", name.as_str()),
        };
        FinishedDownload { script: script, notification: Some(notification) }
    }
}

// ---------------------------------------------------------------------------
// Laws
// ---------------------------------------------------------------------------
/// One step in the life of the queue.
pub enum DownloadStep<P> {
    /// The user answered a dialog.
    Answered(Option<P>),
    /// A download asked for its place.
    Requested,
    /// A download began under a file name.
    Started(Option<Seq<char>>),
}

/// The state after a step.
pub open spec fn stepped<P>(state: PendingView<P>, step: DownloadStep<P>) -> PendingView<P> {
    match step {
        DownloadStep::Answered(chosen) => state.after_choice(chosen),
        DownloadStep::Requested => state.after_request(),
        DownloadStep::Started(file_name) => state.after_start(file_name),
    }
}

/// The state after the first `n` of a run of steps.
pub open spec fn download_run<P>(steps: Seq<DownloadStep<P>>, n: nat) -> PendingView<P>
    decreases n,
{
    if n == 0 {
        PendingView::empty()
    } else {
        stepped(download_run(steps, (n - 1) as nat), steps[n - 1])
    }
}

/// The places that were chosen in the first `n` of a run of steps, in their
/// order.
pub open spec fn chosen_places<P>(steps: Seq<DownloadStep<P>>, n: nat) -> Seq<P>
    decreases n,
{
    if n == 0 {
        Seq::empty()
    } else {
        let before = chosen_places(steps, (n - 1) as nat);
        match steps[n - 1] {
            DownloadStep::Answered(Some(place)) => before.push(place),
            _ => before,
        }
    }
}

/// The `n`-th step of a run, counted from zero, is a download that is served
/// from the queue.
pub open spec fn served<P>(steps: Seq<DownloadStep<P>>, n: nat) -> bool {
    &&& n < steps.len()
    &&& steps[n as int] is Requested
    &&& download_run(steps, n).queue.len() > 0
}

/// How many of the first `n` of a run of steps are downloads that are served
/// from the queue.
pub open spec fn served_count<P>(steps: Seq<DownloadStep<P>>, n: nat) -> nat
    decreases n,
{
    if n == 0 {
        0
    } else if served(steps, (n - 1) as nat) {
        served_count(steps, (n - 1) as nat) + 1
    } else {
        served_count(steps, (n - 1) as nat)
    }
}

/// At any time the queue holds the places that were chosen and not served yet,
/// in the order of the choices.
pub proof fn law_queue_holds_unserved_places<P>(steps: Seq<DownloadStep<P>>, n: nat)
    requires
        n <= steps.len(),
    ensures
        served_count(steps, n) <= chosen_places(steps, n).len(),
        download_run(steps, n).queue == chosen_places(steps, n).skip(
            served_count(steps, n) as int,
        ),
    decreases n,
{
    if n == 0 {
        assert(download_run(steps, n).queue =~= chosen_places(steps, n).skip(0));
    } else {
        let m = (n - 1) as nat;
        law_queue_holds_unserved_places(steps, m);
        let (queue, places, count) = (
            download_run(steps, m).queue,
            chosen_places(steps, m),
            served_count(steps, m) as int,
        );
        match steps[m as int] {
            DownloadStep::Answered(Some(place)) => {
                assert(queue.push(place) =~= places.push(place).skip(count));
            },
            DownloadStep::Requested => {
                if queue.len() > 0 {
                    assert(queue.drop_first() =~= places.skip(count + 1));
                }
            },
            _ => {},
        }
    }
}

/// What was chosen stays chosen, in its place.
proof fn lemma_choices_only_grow<P>(steps: Seq<DownloadStep<P>>, m: nat, n: nat)
    requires
        m <= n <= steps.len(),
    ensures
        chosen_places(steps, m).is_prefix_of(chosen_places(steps, n)),
    decreases n,
{
    if m < n {
        lemma_choices_only_grow(steps, m, (n - 1) as nat);
        let (early, late) = (chosen_places(steps, m), chosen_places(steps, n));
        assert(early =~= late.subrange(0, early.len() as int));
    } else {
        let all = chosen_places(steps, n);
        assert(all =~= all.subrange(0, all.len() as int));
    }
}

/// First chosen, first served: however answers and downloads alternate, the
/// `k`-th download that is served from the queue gets the `k`-th place that
/// was chosen.
pub proof fn law_first_chosen_first_served<P>(
    steps: Seq<DownloadStep<P>>,
    n: nat,
    directory: Option<P>,
    name: Seq<char>,
)
    requires
        served(steps, n),
    ensures
        served_count(steps, n) < chosen_places(steps, n).len(),
        download_run(steps, n).target(directory, name) == SaveTargetView::Chosen(
            chosen_places(steps, steps.len())[served_count(steps, n) as int],
        ),
{
    law_queue_holds_unserved_places(steps, n);
    lemma_choices_only_grow(steps, n, steps.len());
    let (early, late) = (chosen_places(steps, n), chosen_places(steps, steps.len()));
    let k = served_count(steps, n) as int;
    assert(early[k] == late.subrange(0, early.len() as int)[k]);
}

/// A download is not served from the queue only where every place that was
/// chosen so far has been given to a download; it then gets the name that its
/// URL suggests.
pub proof fn law_unserved_download_has_no_place<P>(
    steps: Seq<DownloadStep<P>>,
    n: nat,
    directory: Option<P>,
    name: Seq<char>,
)
    requires
        n < steps.len(),
        steps[n as int] is Requested,
        !served(steps, n),
    ensures
        served_count(steps, n) == chosen_places(steps, n).len(),
        download_run(steps, n).target(directory, name) == match directory {
            Some(known) => SaveTargetView::InDirectory(known, pages::contained(name)),
            None => SaveTargetView::Named(name),
        },
{
    law_queue_holds_unserved_places(steps, n);
}

/// A download that nobody was asked about is saved in the download directory,
/// where that is known, under a name that does not lead out of it; the name is
/// the suggested one unless that could lead out.
pub proof fn law_unasked_downloads_stay_in_directory<P>(
    state: PendingView<P>,
    directory: P,
    pairs: Seq<(Seq<char>, Seq<char>)>,
)
    requires
        state.queue.len() == 0,
    ensures
        ({
            let suggested = pages::pdf_name(pairs);
            let used = pages::contained(suggested);
            &&& state.target(Some(directory), suggested) == SaveTargetView::InDirectory(
                directory,
                used,
            )
            &&& !pages::leads_out(used)
            &&& !pages::leads_out(suggested) ==> used == suggested
        }),
{
    pages::law_pdf_name(pairs);
    pages::law_contained(pages::pdf_name(pairs));
}

/// A dialog that was cancelled changes nothing.
pub proof fn law_cancelled_choice<P>(state: PendingView<P>)
    ensures
        state.after_choice(None) == state,
{
}

/// The notification about a finished download names the file of the download
/// that began last, whatever was chosen or asked for since.
pub proof fn law_finished_names_last_started<P>(
    steps: Seq<DownloadStep<P>>,
    i: nat,
    n: nat,
    name: Seq<char>,
)
    requires
        i < n <= steps.len(),
        steps[i as int] == DownloadStep::<P>::Started(Some(name)),
        forall|k: int| i < k < n ==> !(#[trigger] steps[k] is Started),
    ensures
        download_run(steps, n).finished(true) == Some(
            NotificationView { title: DOWNLOAD_COMPLETE@, body: "Saved "@ + name },
        ),
        download_run(steps, n).finished(false) is None,
    decreases n,
{
    if i + 1 < n {
        law_finished_names_last_started(steps, i, (n - 1) as nat, name);
        assert(!(steps[n - 1] is Started));
        assert(download_run(steps, n).in_flight == download_run(steps, (n - 1) as nat).in_flight);
    }
}

/// The dialog offers the suggested name as it is, takes PDF files, and starts
/// in the download directory where that is known.
pub proof fn law_save_dialog<P>(file_name: Seq<char>, directory: Option<P>)
    ensures
        save_dialog(file_name, directory).file_name == file_name,
        save_dialog(file_name, directory).directory == directory,
        save_dialog(file_name, directory).title == "Save PDF"@,
        save_dialog(file_name, directory).filter_name == "PDF"@,
        save_dialog(file_name, directory).filter_extension == "pdf"@,
{
}

/// The view of a dialog, and of a place, holds what it carries.
pub proof fn law_dialog_view<P>(dialog: SaveDialog<P>, place: P, name: String)
    ensures
        dialog@.title == dialog.title@ && dialog@.file_name == dialog.file_name@,
        dialog@.filter_name == dialog.filter_name@,
        dialog@.filter_extension == dialog.filter_extension@,
        dialog@.directory == dialog.directory,
        SaveTarget::Chosen(place)@ == SaveTargetView::Chosen(place),
        SaveTarget::InDirectory(place, name)@ == SaveTargetView::InDirectory(place, name@),
        SaveTarget::<P>::Named(name)@ == SaveTargetView::<P>::Named(name@),
{
}

/// A chosen place goes to the end of the queue and moves nothing in it, and no
/// other step lengthens the queue.
pub proof fn law_choice_joins_the_queue<P>(state: PendingView<P>, place: P)
    ensures
        state.after_choice(Some(place)).queue.len() == state.queue.len() + 1,
        state.after_choice(Some(place)).queue.last() == place,
        forall|i: int|
            0 <= i < state.queue.len() ==> #[trigger] state.after_choice(Some(place)).queue[i]
                == state.queue[i],
        state.after_choice(Some(place)).in_flight == state.in_flight,
        PendingView::<P>::empty().queue.len() == 0,
        PendingView::<P>::empty().in_flight is None,
{
}

/// A download takes the place at the head of the queue, whatever it is called
/// and wherever downloads go; the others move up by one.
pub proof fn law_request_takes_the_head<P>(
    state: PendingView<P>,
    directory: Option<P>,
    name: Seq<char>,
)
    requires
        state.queue.len() > 0,
    ensures
        state.target(directory, name) == SaveTargetView::Chosen(state.queue[0]),
        state.after_request().queue.len() == state.queue.len() - 1,
        forall|i: int|
            0 <= i < state.queue.len() - 1 ==> #[trigger] state.after_request().queue[i]
                == state.queue[i + 1],
        state.after_request().in_flight == state.in_flight,
{
}

/// A download for which no place waits leaves the queue as it is and is saved
/// in the download directory, under the suggested name with underscores for
/// the slashes where it could lead out; where no directory is known, under the
/// suggested name as it is.
pub proof fn law_request_without_a_choice<P>(state: PendingView<P>, directory: P, name: Seq<char>)
    requires
        state.queue.len() == 0,
    ensures
        state.after_request() == state,
        state.target(None, name) == SaveTargetView::<P>::Named(name),
        match state.target(Some(directory), name) {
            SaveTargetView::InDirectory(place, used) => {
                let leaves = (name.len() > 0 && name[0] == '/') || exists|at: int|
                    0 <= at <= name.len() - 2 && #[trigger] name[at] == '.' && name[at + 1] == '.'
                        && (at == 0 || name[at - 1] == '/') && (at == name.len() - 2 || name[at + 2]
                        == '/');
                &&& place == directory
                &&& used.len() == name.len()
                &&& forall|i: int|
                    0 <= i < name.len() ==> #[trigger] used[i] == if leaves && name[i] == '/' {
                        '_'
                    } else {
                        name[i]
                    }
            },
            _ => false,
        },
{
    pages::law_contained_characters(name);
}

/// The start of a download is noted with its file name, whole, and leaves the
/// queue as it is.
pub proof fn law_start_is_noted<P>(state: PendingView<P>, file_name: Option<Seq<char>>)
    ensures
        state.after_start(file_name).in_flight == file_name,
        state.after_start(file_name).queue == state.queue,
{
}

/// A download that succeeded is announced by its file name, whole, or as a PDF
/// where the name is not known; one that failed is not announced.
pub proof fn law_finished<P>(state: PendingView<P>)
    ensures
        state.finished(false) is None,
        match state.finished(true) {
            Some(posted) => {
                &&& posted.title == "Download complete"@
                &&& state.in_flight is Some ==> posted.body == "Saved "@ + state.in_flight->0
                &&& state.in_flight is None ==> posted.body == "Saved PDF"@
            },
            None => false,
        },
{
    reveal_strlit("Saved ");
    reveal_strlit("PDF");
    reveal_strlit("Saved PDF");
    assert("Saved "@ + "PDF"@ =~= "Saved PDF"@);
}

} // verus!
