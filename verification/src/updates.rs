//! Updates of the client: the check on demand and the watcher in the
//! background.
//!
//! Each is a machine of phases. A phase says what the shell has to do; the
//! shell does it and reports the outcome as an event, which leads to the next
//! phase. An event that does not belong to the phase changes nothing.
use vstd::prelude::*;

use crate::notices;
use crate::notices::Notification;
use crate::notices::NotificationView;
use crate::text;

verus! {

/// How long the watcher lets the window settle, in seconds.
pub const SETTLE_SECONDS: u64 = 2;

/// How long the watcher waits from one check to the next, in seconds: six
/// hours.
pub const CHECK_INTERVAL_SECONDS: u64 = 21600;

// ---------------------------------------------------------------------------
// The check: phases and events
// ---------------------------------------------------------------------------
/// A message to show.
#[derive(Debug, PartialEq, Eq)]
pub struct Message {
    pub title: String,
    pub text: String,
}

/// A question to ask.
#[derive(Debug, PartialEq, Eq)]
pub struct Question {
    pub title: String,
    pub text: String,
    /// The label of the button for yes.
    pub accept: String,
    /// The label of the button for no.
    pub decline: String,
}

/// What a check for updates has to do next.
#[derive(Debug, PartialEq, Eq)]
pub enum UpdatePhase {
    /// Open the updater.
    Opening,
    /// Look for an update.
    Checking,
    /// Ask the user.
    Asking(Question),
    /// Download and install the update.
    Installing,
    /// Tell the user.
    Telling(Message),
    /// Restart the client.
    Restarting,
    /// Nothing more.
    Finished,
}

/// What happened in a phase of a check.
#[derive(Debug, PartialEq, Eq)]
pub enum UpdateEvent {
    /// The updater is open.
    Opened,
    /// The updater could not be opened, for this reason.
    Unavailable(String),
    /// There is an update, to this version.
    Found(String),
    /// There is no update.
    UpToDate,
    /// Looking for an update failed, for this reason.
    CheckFailed(String),
    /// The user answered the question.
    Answered(bool),
    /// The update is installed.
    Installed,
    /// The update could not be installed, for this reason.
    InstallFailed(String),
    /// The user has read the message.
    Dismissed,
}

/// The texts of a [`Message`].
pub struct MessageView {
    pub title: Seq<char>,
    pub text: Seq<char>,
}

/// The texts of a [`Question`].
pub struct QuestionView {
    pub title: Seq<char>,
    pub text: Seq<char>,
    pub accept: Seq<char>,
    pub decline: Seq<char>,
}

/// The contents of an [`UpdatePhase`].
pub enum UpdatePhaseView {
    Opening,
    Checking,
    Asking(QuestionView),
    Installing,
    Telling(MessageView),
    Restarting,
    Finished,
}

/// The contents of an [`UpdateEvent`].
pub enum UpdateEventView {
    Opened,
    Unavailable(Seq<char>),
    Found(Seq<char>),
    UpToDate,
    CheckFailed(Seq<char>),
    Answered(bool),
    Installed,
    InstallFailed(Seq<char>),
    Dismissed,
}

impl View for Message {
    type V = MessageView;

    open spec fn view(&self) -> MessageView {
        MessageView { title: self.title@, text: self.text@ }
    }
}

impl View for Question {
    type V = QuestionView;

    open spec fn view(&self) -> QuestionView {
        QuestionView {
            title: self.title@,
            text: self.text@,
            accept: self.accept@,
            decline: self.decline@,
        }
    }
}

impl View for UpdatePhase {
    type V = UpdatePhaseView;

    open spec fn view(&self) -> UpdatePhaseView {
        match self {
            UpdatePhase::Opening => UpdatePhaseView::Opening,
            UpdatePhase::Checking => UpdatePhaseView::Checking,
            UpdatePhase::Asking(question) => UpdatePhaseView::Asking(question@),
            UpdatePhase::Installing => UpdatePhaseView::Installing,
            UpdatePhase::Telling(message) => UpdatePhaseView::Telling(message@),
            UpdatePhase::Restarting => UpdatePhaseView::Restarting,
            UpdatePhase::Finished => UpdatePhaseView::Finished,
        }
    }
}

impl View for UpdateEvent {
    type V = UpdateEventView;

    open spec fn view(&self) -> UpdateEventView {
        match self {
            UpdateEvent::Opened => UpdateEventView::Opened,
            UpdateEvent::Unavailable(reason) => UpdateEventView::Unavailable(reason@),
            UpdateEvent::Found(version) => UpdateEventView::Found(version@),
            UpdateEvent::UpToDate => UpdateEventView::UpToDate,
            UpdateEvent::CheckFailed(reason) => UpdateEventView::CheckFailed(reason@),
            UpdateEvent::Answered(yes) => UpdateEventView::Answered(*yes),
            UpdateEvent::Installed => UpdateEventView::Installed,
            UpdateEvent::InstallFailed(reason) => UpdateEventView::InstallFailed(reason@),
            UpdateEvent::Dismissed => UpdateEventView::Dismissed,
        }
    }
}

// ---------------------------------------------------------------------------
// The check: transitions
// ---------------------------------------------------------------------------
/// An interactive check reports a message; a silent one just ends.
pub open spec fn report(interactive: bool, text: Seq<char>) -> UpdatePhaseView {
    if interactive {
        UpdatePhaseView::Telling(MessageView { title: notices::APP_NAME@, text: text })
    } else {
        UpdatePhaseView::Finished
    }
}

/// The question whether to install an update.
pub open spec fn install_question(version: Seq<char>) -> QuestionView {
    QuestionView {
        title: "Update available"@,
        text: "Agency OS "@ + version + " is available.\nInstall it now and restart?"@,
        accept: "Install & Restart"@,
        decline: "Later"@,
    }
}

/// The phase of a check that follows an event.
pub open spec fn next_phase(
    interactive: bool,
    phase: UpdatePhaseView,
    event: UpdateEventView,
) -> UpdatePhaseView {
    match (phase, event) {
        (UpdatePhaseView::Opening, UpdateEventView::Opened) => UpdatePhaseView::Checking,
        (UpdatePhaseView::Opening, UpdateEventView::Unavailable(reason)) => report(
            interactive,
            "Updater unavailable:\n"@ + reason,
        ),
        (UpdatePhaseView::Checking, UpdateEventView::Found(version)) => if interactive {
            UpdatePhaseView::Asking(install_question(version))
        } else {
            UpdatePhaseView::Installing
        },
        (UpdatePhaseView::Checking, UpdateEventView::UpToDate) => report(
            interactive,
            "You're on the latest version."@,
        ),
        (UpdatePhaseView::Checking, UpdateEventView::CheckFailed(reason)) => report(
            interactive,
            "Couldn't check for updates:\n"@ + reason,
        ),
        (UpdatePhaseView::Asking(_), UpdateEventView::Answered(yes)) => if yes {
            UpdatePhaseView::Installing
        } else {
            UpdatePhaseView::Finished
        },
        (UpdatePhaseView::Installing, UpdateEventView::Installed) => if interactive {
            UpdatePhaseView::Restarting
        } else {
            UpdatePhaseView::Finished
        },
        (UpdatePhaseView::Installing, UpdateEventView::InstallFailed(reason)) => report(
            interactive,
            "Update failed:\n"@ + reason,
        ),
        (UpdatePhaseView::Telling(_), UpdateEventView::Dismissed) => UpdatePhaseView::Finished,
        _ => phase,
    }
}

/// An interactive check reports a message; a silent one just ends.
fn reported(interactive: bool, text: String) -> (next: UpdatePhase)
    ensures
        next@ == report(interactive, text@),
{
    if interactive {
        UpdatePhase::Telling(Message { title: notices::APP_NAME.to_string(), text: text })
    } else {
        UpdatePhase::Finished
    }
}

/// The question whether to install an update.
fn ask_to_install(version: &str) -> (question: Question)
    ensures
        question@ == install_question(version@),
{
    let head = text::joined("Agency OS ", version);
    Question {
        title: "Update available".to_string(),
        text: text::joined(head.as_str(), " is available.\nInstall it now and restart?"),
        accept: "Install & Restart".to_string(),
        decline: "Later".to_string(),
    }
}

/// The phase with which a check for updates begins.
pub fn begin_check() -> (phase: UpdatePhase)
    ensures
        phase@ == UpdatePhaseView::Opening,
{
    UpdatePhase::Opening
}

/// The phase of a check for updates that follows an event. An interactive
/// check asks before it installs, restarts the client behind it, and reports
/// every other outcome; a silent one installs what it finds and says nothing.
pub fn check_for_updates(interactive: bool, phase: UpdatePhase, event: UpdateEvent) -> (next:
    UpdatePhase)
    ensures
        next@ == next_phase(interactive, phase@, event@),
{
    match (phase, event) {
        (UpdatePhase::Opening, UpdateEvent::Opened) => UpdatePhase::Checking,
        (UpdatePhase::Opening, UpdateEvent::Unavailable(reason)) => reported(
            interactive,
            text::joined("Updater unavailable:\n", reason.as_str()),
        ),
        (UpdatePhase::Checking, UpdateEvent::Found(version)) => {
            if interactive {
                UpdatePhase::Asking(ask_to_install(version.as_str()))
            } else {
                UpdatePhase::Installing
            }
        },
        (UpdatePhase::Checking, UpdateEvent::UpToDate) => reported(
            interactive,
            "You're on the latest version.".to_string(),
        ),
        (UpdatePhase::Checking, UpdateEvent::CheckFailed(reason)) => reported(
            interactive,
            text::joined("Couldn't check for updates:\n", reason.as_str()),
        ),
        (UpdatePhase::Asking(_), UpdateEvent::Answered(yes)) => {
            if yes {
                UpdatePhase::Installing
            } else {
                UpdatePhase::Finished
            }
        },
        (UpdatePhase::Installing, UpdateEvent::Installed) => {
            if interactive {
                UpdatePhase::Restarting
            } else {
                UpdatePhase::Finished
            }
        },
        (UpdatePhase::Installing, UpdateEvent::InstallFailed(reason)) => reported(
            interactive,
            text::joined("Update failed:\n", reason.as_str()),
        ),
        (UpdatePhase::Telling(_), UpdateEvent::Dismissed) => UpdatePhase::Finished,
        (same, _) => same,
    }
}

// ---------------------------------------------------------------------------
// The watcher: phases and events
// ---------------------------------------------------------------------------
/// What the watcher has to do next.
#[derive(Debug, PartialEq, Eq)]
pub enum WatchPhase {
    /// Let the window settle.
    Settling,
    /// Welcome the user, if this is the first launch.
    Welcoming,
    /// Look for an update.
    Checking,
    /// Download and stage the update to this version.
    Installing(String),
    /// Post a notification.
    Announcing(Notification),
    /// Wait for the next check.
    Waiting,
}

/// What happened in a phase of the watcher.
#[derive(Debug, PartialEq, Eq)]
pub enum WatchEvent {
    /// The time is over.
    Slept,
    /// The welcome is done with.
    Welcomed,
    /// There is an update to this version; `None` where there is none or the
    /// check failed.
    Checked(Option<String>),
    /// The update is staged, or could not be.
    Installed(bool),
    /// The notification is posted.
    Posted,
}

/// The watcher: its phase, and the versions that it has announced.
#[derive(Debug, PartialEq, Eq)]
pub struct UpdateWatcher {
    pub phase: WatchPhase,
    pub announced: Vec<String>,
}

/// The contents of a [`WatchPhase`].
pub enum WatchPhaseView {
    Settling,
    Welcoming,
    Checking,
    Installing(Seq<char>),
    Announcing(NotificationView),
    Waiting,
}

/// The contents of a [`WatchEvent`].
pub enum WatchEventView {
    Slept,
    Welcomed,
    Checked(Option<Seq<char>>),
    Installed(bool),
    Posted,
}

/// The contents of an [`UpdateWatcher`].
pub struct WatcherView {
    pub phase: WatchPhaseView,
    pub announced: Seq<Seq<char>>,
}

impl View for WatchPhase {
    type V = WatchPhaseView;

    open spec fn view(&self) -> WatchPhaseView {
        match self {
            WatchPhase::Settling => WatchPhaseView::Settling,
            WatchPhase::Welcoming => WatchPhaseView::Welcoming,
            WatchPhase::Checking => WatchPhaseView::Checking,
            WatchPhase::Installing(version) => WatchPhaseView::Installing(version@),
            WatchPhase::Announcing(notification) => WatchPhaseView::Announcing(notification@),
            WatchPhase::Waiting => WatchPhaseView::Waiting,
        }
    }
}

impl View for WatchEvent {
    type V = WatchEventView;

    open spec fn view(&self) -> WatchEventView {
        match self {
            WatchEvent::Slept => WatchEventView::Slept,
            WatchEvent::Welcomed => WatchEventView::Welcomed,
            WatchEvent::Checked(version) => WatchEventView::Checked(text::optional(*version)),
            WatchEvent::Installed(staged) => WatchEventView::Installed(*staged),
            WatchEvent::Posted => WatchEventView::Posted,
        }
    }
}

impl View for UpdateWatcher {
    type V = WatcherView;

    open spec fn view(&self) -> WatcherView {
        WatcherView {
            phase: self.phase@,
            announced: text::texts(self.announced@),
        }
    }
}

// ---------------------------------------------------------------------------
// The watcher: transitions
// ---------------------------------------------------------------------------
/// The notification about a staged update.
pub open spec fn staged_notification(version: Seq<char>) -> NotificationView {
    NotificationView {
        title: "Agency OS update ready"@,
        body: "Version "@ + version + " is downloaded — quit and reopen Agency OS to update."@,
    }
}

/// The watcher at the launch of the client.
pub open spec fn launched() -> WatcherView {
    WatcherView { phase: WatchPhaseView::Settling, announced: Seq::empty() }
}

/// The watcher after an event.
pub open spec fn watched(watcher: WatcherView, event: WatchEventView) -> WatcherView {
    match (watcher.phase, event) {
        (WatchPhaseView::Settling, WatchEventView::Slept) => WatcherView {
            phase: WatchPhaseView::Welcoming,
            ..watcher
        },
        (WatchPhaseView::Welcoming, WatchEventView::Welcomed) => WatcherView {
            phase: WatchPhaseView::Checking,
            ..watcher
        },
        (WatchPhaseView::Checking, WatchEventView::Checked(found)) => match found {
            Some(version) => WatcherView {
                phase: WatchPhaseView::Installing(version),
                ..watcher
            },
            None => WatcherView { phase: WatchPhaseView::Waiting, ..watcher },
        },
        (WatchPhaseView::Installing(version), WatchEventView::Installed(staged)) => {
            if staged && !watcher.announced.contains(version) {
                WatcherView {
                    phase: WatchPhaseView::Announcing(staged_notification(version)),
                    announced: watcher.announced.push(version),
                }
            } else {
                WatcherView { phase: WatchPhaseView::Waiting, ..watcher }
            }
        },
        (WatchPhaseView::Announcing(_), WatchEventView::Posted) => WatcherView {
            phase: WatchPhaseView::Waiting,
            ..watcher
        },
        (WatchPhaseView::Waiting, WatchEventView::Slept) => WatcherView {
            phase: WatchPhaseView::Checking,
            ..watcher
        },
        _ => watcher,
    }
}

/// The notification about a staged update.
fn announce(version: &str) -> (notification: Notification)
    ensures
        notification@ == staged_notification(version@),
{
    let head = text::joined("Version ", version);
    Notification {
        title: "Agency OS update ready".to_string(),
        body: text::joined(
            head.as_str(),
            " is downloaded — quit and reopen Agency OS to update.",
        ),
    }
}

/// The watcher at the launch of the client.
pub fn spawn_update_watcher() -> (watcher: UpdateWatcher)
    ensures
        watcher@ == launched(),
{
    let watcher = UpdateWatcher { phase: WatchPhase::Settling, announced: Vec::new() };
    assert(watcher@.announced =~= Seq::<Seq<char>>::empty());
    watcher
}

impl UpdateWatcher {
    /// The watcher after an event. It checks once the user is welcomed, and
    /// then in intervals; what it finds it stages, and a staged version is
    /// announced unless it has been announced before.
    pub fn after(self, event: WatchEvent) -> (next: UpdateWatcher)
        ensures
            next@ == watched(self@, event@),
    {
        let UpdateWatcher { phase, announced } = self;
        match (phase, event) {
            (WatchPhase::Settling, WatchEvent::Slept) => UpdateWatcher {
                phase: WatchPhase::Welcoming,
                announced: announced,
            },
            (WatchPhase::Welcoming, WatchEvent::Welcomed) => UpdateWatcher {
                phase: WatchPhase::Checking,
                announced: announced,
            },
            (WatchPhase::Checking, WatchEvent::Checked(found)) => match found {
                Some(version) => UpdateWatcher {
                    phase: WatchPhase::Installing(version),
                    announced: announced,
                },
                None => UpdateWatcher { phase: WatchPhase::Waiting, announced: announced },
            },
            (WatchPhase::Installing(version), WatchEvent::Installed(staged)) => {
                if staged && !text::is_listed(&announced, version.as_str()) {
                    let notification = announce(version.as_str());
                    let mut noted = announced;
                    noted.push(version);
                    assert(text::texts(noted@) =~= self@.announced.push(version@));
                    UpdateWatcher {
                        phase: WatchPhase::Announcing(notification),
                        announced: noted,
                    }
                } else {
                    UpdateWatcher { phase: WatchPhase::Waiting, announced: announced }
                }
            },
            (WatchPhase::Announcing(_), WatchEvent::Posted) => UpdateWatcher {
                phase: WatchPhase::Waiting,
                announced: announced,
            },
            (WatchPhase::Waiting, WatchEvent::Slept) => UpdateWatcher {
                phase: WatchPhase::Checking,
                announced: announced,
            },
            (same, _) => UpdateWatcher { phase: same, announced: announced },
        }
    }

    /// How long to sleep in this phase, in seconds; `None` in a phase that is
    /// no sleep.
    pub fn sleep_seconds(&self) -> (seconds: Option<u64>)
        ensures
            seconds == match self@.phase {
                WatchPhaseView::Settling => Some(SETTLE_SECONDS),
                WatchPhaseView::Waiting => Some(CHECK_INTERVAL_SECONDS),
                _ => None,
            },
    {
        match &self.phase {
            WatchPhase::Settling => Some(SETTLE_SECONDS),
            WatchPhase::Waiting => Some(CHECK_INTERVAL_SECONDS),
            _ => None,
        }
    }
}

// ---------------------------------------------------------------------------
// Laws of the check
// ---------------------------------------------------------------------------
/// The phase of a check after a run of events.
pub open spec fn check_run(interactive: bool, events: Seq<UpdateEventView>) -> UpdatePhaseView
    decreases events.len(),
{
    if events.len() == 0 {
        UpdatePhaseView::Opening
    } else {
        next_phase(interactive, check_run(interactive, events.drop_last()), events.last())
    }
}

/// A silent check never asks, never tells and never restarts, whatever
/// happens.
pub proof fn law_silent_check_is_silent(events: Seq<UpdateEventView>)
    ensures
        !(check_run(false, events) is Asking),
        !(check_run(false, events) is Telling),
        !(check_run(false, events) is Restarting),
    decreases events.len(),
{
    if events.len() > 0 {
        law_silent_check_is_silent(events.drop_last());
    }
}

/// An interactive check installs nothing unless the user was asked and said
/// yes.
pub proof fn law_install_needs_consent(phase: UpdatePhaseView, event: UpdateEventView)
    requires
        !(phase is Installing),
        next_phase(true, phase, event) is Installing,
    ensures
        phase is Asking,
        event == UpdateEventView::Answered(true),
{
}

/// The client restarts only behind an update that an interactive check has
/// installed.
pub proof fn law_restart_behind_install(
    interactive: bool,
    phase: UpdatePhaseView,
    event: UpdateEventView,
)
    requires
        !(phase is Restarting),
        next_phase(interactive, phase, event) is Restarting,
    ensures
        interactive,
        phase is Installing,
        event is Installed,
{
}

/// An interactive check ends without a message only where the user declined
/// the update: every other outcome is reported, or restarts the client.
pub proof fn law_interactive_check_reports(phase: UpdatePhaseView, event: UpdateEventView)
    requires
        !(phase is Finished),
        next_phase(true, phase, event) is Finished,
    ensures
        (phase is Asking && event == UpdateEventView::Answered(false)) || (phase is Telling
            && event is Dismissed),
{
}

/// A check that is over stays over.
pub proof fn law_check_ends(interactive: bool, phase: UpdatePhaseView, event: UpdateEventView)
    requires
        phase is Finished || phase is Restarting,
    ensures
        next_phase(interactive, phase, event) == phase,
{
}

// ---------------------------------------------------------------------------
// Laws of the watcher
// ---------------------------------------------------------------------------
/// The watcher after the first `n` of a run of events.
pub open spec fn watch_run(events: Seq<WatchEventView>, n: nat) -> WatcherView
    decreases n,
{
    if n == 0 {
        launched()
    } else {
        watched(watch_run(events, (n - 1) as nat), events[n - 1])
    }
}

/// The `n`-th event of a run leads to the notification about a staged version.
pub open spec fn announces(events: Seq<WatchEventView>, n: nat, version: Seq<char>) -> bool {
    &&& 0 < n <= events.len()
    &&& !(watch_run(events, (n - 1) as nat).phase is Announcing)
    &&& watch_run(events, n).phase == WatchPhaseView::Announcing(staged_notification(version))
}

/// The event with the index `i` of a run reports that a version is staged.
pub open spec fn stages(events: Seq<WatchEventView>, i: nat, version: Seq<char>) -> bool {
    &&& i < events.len()
    &&& watch_run(events, i).phase == WatchPhaseView::Installing(version)
    &&& events[i as int] == WatchEventView::Installed(true)
}

/// A version that was staged is announced, unless it has been announced
/// before; a version that could not be staged is not announced.
pub proof fn law_staged_version_is_announced(
    watcher: WatcherView,
    version: Seq<char>,
    staged: bool,
)
    requires
        watcher.phase == WatchPhaseView::Installing(version),
    ensures
        watched(watcher, WatchEventView::Installed(staged)) == if staged
            && !watcher.announced.contains(version) {
            WatcherView {
                phase: WatchPhaseView::Announcing(staged_notification(version)),
                announced: watcher.announced.push(version),
            }
        } else {
            WatcherView { phase: WatchPhaseView::Waiting, ..watcher }
        },
{
}

/// The watcher checks at the launch, once the user is welcomed, and from then
/// on only behind a wait of the whole interval.
pub proof fn law_checks_keep_the_interval(watcher: WatcherView, event: WatchEventView)
    requires
        !(watcher.phase is Checking),
        watched(watcher, event).phase is Checking,
    ensures
        (watcher.phase is Welcoming && event is Welcomed) || (watcher.phase is Waiting
            && event is Slept),
{
}

/// The user is welcomed once in a run: the watcher never returns to the
/// welcome, nor to the settling before it.
pub proof fn law_welcome_comes_once(watcher: WatcherView, event: WatchEventView)
    requires
        !(watcher.phase is Settling) && !(watcher.phase is Welcoming),
    ensures
        !(watched(watcher, event).phase is Settling),
        !(watched(watcher, event).phase is Welcoming),
{
}

/// Notifications about different versions are different.
pub proof fn law_notifications_name_versions(v: Seq<char>, w: Seq<char>)
    requires
        staged_notification(v) == staged_notification(w),
    ensures
        v == w,
{
    let head = "Version "@;
    let tail = " is downloaded — quit and reopen Agency OS to update."@;
    let (a, b) = (staged_notification(v).body, staged_notification(w).body);
    assert(a.len() == head.len() + v.len() + tail.len());
    assert(b.len() == head.len() + w.len() + tail.len());
    assert(v =~= a.subrange(head.len() as int, (head.len() + v.len()) as int));
    assert(w =~= b.subrange(head.len() as int, (head.len() + w.len()) as int));
}

/// What is announced has just been staged, and had not been announced before;
/// from then on it counts as announced.
pub proof fn law_announced_was_staged(events: Seq<WatchEventView>, n: nat, version: Seq<char>)
    requires
        announces(events, n, version),
    ensures
        stages(events, (n - 1) as nat, version),
        !watch_run(events, (n - 1) as nat).announced.contains(version),
        watch_run(events, n).announced == watch_run(events, (n - 1) as nat).announced.push(version),
{
    let before = watch_run(events, (n - 1) as nat);
    assert(before.phase is Installing);
    let found = before.phase->Installing_0;
    law_notifications_name_versions(found, version);
}

/// Every staged version is announced, at the latest when it is staged.
pub proof fn law_staged_version_was_announced(
    events: Seq<WatchEventView>,
    i: nat,
    version: Seq<char>,
) -> (n: nat)
    requires
        stages(events, i, version),
    ensures
        n <= i + 1,
        announces(events, n, version),
{
    if watch_run(events, i).announced.contains(version) {
        lemma_noted_was_announced(events, i, version)
    } else {
        i + 1
    }
}

/// A version that counts as announced has been announced.
proof fn lemma_noted_was_announced(events: Seq<WatchEventView>, m: nat, version: Seq<char>) -> (n:
    nat)
    requires
        m <= events.len(),
        watch_run(events, m).announced.contains(version),
    ensures
        n <= m,
        announces(events, n, version),
    decreases m,
{
    let before = (m - 1) as nat;
    if watch_run(events, before).announced.contains(version) {
        lemma_noted_was_announced(events, before, version)
    } else {
        m
    }
}

/// A version that counts as announced does so ever after.
proof fn lemma_noted_for_good(events: Seq<WatchEventView>, i: nat, m: nat, version: Seq<char>)
    requires
        i <= m <= events.len(),
        watch_run(events, i).announced.contains(version),
    ensures
        watch_run(events, m).announced.contains(version),
    decreases m,
{
    if i < m {
        let before = (m - 1) as nat;
        lemma_noted_for_good(events, i, before, version);
        let old_list = watch_run(events, before).announced;
        let at = choose|k: int| 0 <= k < old_list.len() && old_list[k] == version;
        assert(watch_run(events, m).announced[at] == version);
    }
}

/// Each version is announced once, whatever is found and staged.
pub proof fn law_announced_once(
    events: Seq<WatchEventView>,
    i: nat,
    j: nat,
    version: Seq<char>,
)
    requires
        announces(events, i, version),
        announces(events, j, version),
    ensures
        i == j,
{
    if i != j {
        let (first, last) = if i < j {
            (i, j)
        } else {
            (j, i)
        };
        law_announced_was_staged(events, first, version);
        law_announced_was_staged(events, last, version);
        assert(watch_run(events, first).announced.last() == version);
        lemma_noted_for_good(events, first, (last - 1) as nat, version);
    }
}

// ---------------------------------------------------------------------------
// Laws of single steps
// ---------------------------------------------------------------------------
/// The views of the phases and events of a check hold what these carry.
pub proof fn law_check_views(
    message: Message,
    question: Question,
    s: String,
    yes: bool,
)
    ensures
        message@.title == message.title@ && message@.text == message.text@,
        question@.title == question.title@ && question@.text == question.text@,
        question@.accept == question.accept@ && question@.decline == question.decline@,
        UpdatePhase::Opening@ is Opening && UpdatePhase::Checking@ is Checking,
        UpdatePhase::Asking(question)@ == UpdatePhaseView::Asking(question@),
        UpdatePhase::Telling(message)@ == UpdatePhaseView::Telling(message@),
        UpdatePhase::Installing@ is Installing && UpdatePhase::Restarting@ is Restarting,
        UpdatePhase::Finished@ is Finished,
        UpdateEvent::Opened@ is Opened && UpdateEvent::UpToDate@ is UpToDate,
        UpdateEvent::Installed@ is Installed && UpdateEvent::Dismissed@ is Dismissed,
        UpdateEvent::Unavailable(s)@ == UpdateEventView::Unavailable(s@),
        UpdateEvent::Found(s)@ == UpdateEventView::Found(s@),
        UpdateEvent::CheckFailed(s)@ == UpdateEventView::CheckFailed(s@),
        UpdateEvent::InstallFailed(s)@ == UpdateEventView::InstallFailed(s@),
        UpdateEvent::Answered(yes)@ == UpdateEventView::Answered(yes),
{
}

/// The views of the phases and events of the watcher hold what these carry.
pub proof fn law_watch_views(
    watcher: UpdateWatcher,
    notification: Notification,
    s: String,
    yes: bool,
)
    ensures
        watcher@.phase == watcher.phase@,
        watcher@.announced.len() == watcher.announced@.len(),
        forall|i: int|
            0 <= i < watcher.announced@.len() ==> #[trigger] watcher@.announced[i]
                == watcher.announced@[i]@,
        WatchPhase::Settling@ is Settling && WatchPhase::Welcoming@ is Welcoming,
        WatchPhase::Checking@ is Checking && WatchPhase::Waiting@ is Waiting,
        WatchPhase::Installing(s)@ == WatchPhaseView::Installing(s@),
        WatchPhase::Announcing(notification)@ == WatchPhaseView::Announcing(notification@),
        WatchEvent::Slept@ is Slept && WatchEvent::Welcomed@ is Welcomed,
        WatchEvent::Posted@ is Posted,
        WatchEvent::Checked(Some(s))@ == WatchEventView::Checked(Some(s@)),
        WatchEvent::Checked(None)@ == WatchEventView::Checked(None),
        WatchEvent::Installed(yes)@ == WatchEventView::Installed(yes),
{
}

/// A check opens the updater, looks for an update and installs it. An
/// interactive one asks first, naming the version, whole, and restarts behind
/// it; a silent one does neither.
pub proof fn law_check_of_an_update(version: Seq<char>, question: QuestionView, interactive: bool)
    ensures
        next_phase(interactive, UpdatePhaseView::Opening, UpdateEventView::Opened) is Checking,
        match next_phase(true, UpdatePhaseView::Checking, UpdateEventView::Found(version)) {
            UpdatePhaseView::Asking(asked) => {
                &&& asked.title == "Update available"@
                &&& asked.text == "Agency OS "@ + version
                    + " is available.\nInstall it now and restart?"@
                &&& asked.accept == "Install & Restart"@
                &&& asked.decline == "Later"@
            },
            _ => false,
        },
        next_phase(false, UpdatePhaseView::Checking, UpdateEventView::Found(version)) is Installing,
        next_phase(
            interactive,
            UpdatePhaseView::Asking(question),
            UpdateEventView::Answered(true),
        ) is Installing,
        next_phase(
            interactive,
            UpdatePhaseView::Asking(question),
            UpdateEventView::Answered(false),
        ) is Finished,
        next_phase(true, UpdatePhaseView::Installing, UpdateEventView::Installed) is Restarting,
        next_phase(false, UpdatePhaseView::Installing, UpdateEventView::Installed) is Finished,
{
}

/// Every other outcome is told by an interactive check, with the reason of a
/// failure as it is, and the check ends when the user has read it; a silent
/// check ends without a word.
pub proof fn law_outcomes_are_told(reason: Seq<char>, message: MessageView)
    ensures
        next_phase(true, UpdatePhaseView::Opening, UpdateEventView::Unavailable(reason))
            == UpdatePhaseView::Telling(
            MessageView { title: "Agency OS"@, text: "Updater unavailable:\n"@ + reason },
        ),
        next_phase(true, UpdatePhaseView::Checking, UpdateEventView::UpToDate)
            == UpdatePhaseView::Telling(
            MessageView { title: "Agency OS"@, text: "You're on the latest version."@ },
        ),
        next_phase(true, UpdatePhaseView::Checking, UpdateEventView::CheckFailed(reason))
            == UpdatePhaseView::Telling(
            MessageView { title: "Agency OS"@, text: "Couldn't check for updates:\n"@ + reason },
        ),
        next_phase(true, UpdatePhaseView::Installing, UpdateEventView::InstallFailed(reason))
            == UpdatePhaseView::Telling(
            MessageView { title: "Agency OS"@, text: "Update failed:\n"@ + reason },
        ),
        next_phase(true, UpdatePhaseView::Telling(message), UpdateEventView::Dismissed) is Finished,
        next_phase(
            false,
            UpdatePhaseView::Opening,
            UpdateEventView::Unavailable(reason),
        ) is Finished,
        next_phase(false, UpdatePhaseView::Checking, UpdateEventView::UpToDate) is Finished,
        next_phase(
            false,
            UpdatePhaseView::Checking,
            UpdateEventView::CheckFailed(reason),
        ) is Finished,
        next_phase(
            false,
            UpdatePhaseView::Installing,
            UpdateEventView::InstallFailed(reason),
        ) is Finished,
{
}

/// An event that does not belong to the phase of a check changes nothing.
pub proof fn law_check_ignores_other_events(
    interactive: bool,
    phase: UpdatePhaseView,
    event: UpdateEventView,
)
    requires
        phase is Opening ==> !(event is Opened) && !(event is Unavailable),
        phase is Checking ==> !(event is Found) && !(event is UpToDate) && !(event is CheckFailed),
        phase is Asking ==> !(event is Answered),
        phase is Installing ==> !(event is Installed) && !(event is InstallFailed),
        phase is Telling ==> !(event is Dismissed),
    ensures
        next_phase(interactive, phase, event) == phase,
{
}

/// The watcher settles, welcomes, checks, stages what was found, announces it
/// and waits for the next check; a check that found nothing leads straight to
/// the wait. None of these steps forgets what was announced.
pub proof fn law_watcher_steps(announced: Seq<Seq<char>>, version: Seq<char>, n: NotificationView)
    ensures
        watched(
            WatcherView { phase: WatchPhaseView::Settling, announced },
            WatchEventView::Slept,
        ) == (WatcherView { phase: WatchPhaseView::Welcoming, announced }),
        watched(
            WatcherView { phase: WatchPhaseView::Welcoming, announced },
            WatchEventView::Welcomed,
        ) == (WatcherView { phase: WatchPhaseView::Checking, announced }),
        watched(
            WatcherView { phase: WatchPhaseView::Checking, announced },
            WatchEventView::Checked(Some(version)),
        ) == (WatcherView { phase: WatchPhaseView::Installing(version), announced }),
        watched(
            WatcherView { phase: WatchPhaseView::Checking, announced },
            WatchEventView::Checked(None),
        ) == (WatcherView { phase: WatchPhaseView::Waiting, announced }),
        watched(
            WatcherView { phase: WatchPhaseView::Installing(version), announced },
            WatchEventView::Installed(false),
        ) == (WatcherView { phase: WatchPhaseView::Waiting, announced }),
        watched(
            WatcherView { phase: WatchPhaseView::Announcing(n), announced },
            WatchEventView::Posted,
        ) == (WatcherView { phase: WatchPhaseView::Waiting, announced }),
        watched(
            WatcherView { phase: WatchPhaseView::Waiting, announced },
            WatchEventView::Slept,
        ) == (WatcherView { phase: WatchPhaseView::Checking, announced }),
        launched().phase is Settling,
        launched().announced.len() == 0,
{
}

/// A version that was staged and is not among those announced is announced by
/// its name, whole, and joins them; one that is among them is not announced
/// again.
pub proof fn law_watcher_announces(announced: Seq<Seq<char>>, version: Seq<char>)
    ensures
        ({
            let before = WatcherView { phase: WatchPhaseView::Installing(version), announced };
            let after = watched(before, WatchEventView::Installed(true));
            if exists|i: int| 0 <= i < announced.len() && #[trigger] announced[i] == version {
                &&& after.phase is Waiting
                &&& after.announced == announced
            } else {
                &&& after.phase == WatchPhaseView::Announcing(
                    NotificationView {
                        title: "Agency OS update ready"@,
                        body: "Version "@ + version
                            + " is downloaded — quit and reopen Agency OS to update."@,
                    },
                )
                &&& after.announced.len() == announced.len() + 1
                &&& after.announced.last() == version
                &&& forall|i: int|
                    0 <= i < announced.len() ==> #[trigger] after.announced[i] == announced[i]
            }
        }),
{
    if exists|i: int| 0 <= i < announced.len() && #[trigger] announced[i] == version {
        assert(announced.contains(version));
    }
}

/// An event that does not belong to the phase of the watcher changes nothing.
pub proof fn law_watcher_ignores_other_events(watcher: WatcherView, event: WatchEventView)
    requires
        watcher.phase is Settling || watcher.phase is Waiting ==> !(event is Slept),
        watcher.phase is Welcoming ==> !(event is Welcomed),
        watcher.phase is Checking ==> !(event is Checked),
        watcher.phase is Installing ==> !(event is Installed),
        watcher.phase is Announcing ==> !(event is Posted),
    ensures
        watched(watcher, event) == watcher,
{
}

/// The window settles for two seconds, and six hours lie between two checks.
pub proof fn law_durations()
    ensures
        SETTLE_SECONDS == 2,
        CHECK_INTERVAL_SECONDS == 6 * 60 * 60,
{
}

} // verus!
