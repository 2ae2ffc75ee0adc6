//! The notifications that the client posts.
use vstd::prelude::*;

verus! {

/// The name of the client, as windows and dialogs show it.
pub const APP_NAME: &'static str = "Agency OS";

/// The name of the file, in the configuration directory, that is there once
/// the user has been welcomed.
pub const WELCOME_FLAG: &'static str = "notif-welcomed";

/// What that file holds.
pub const WELCOME_FLAG_CONTENTS: &'static str = "1";

/// The body of the welcome.
pub const WELCOME_BODY: &'static str =
    "Notifications are on — you'll be alerted about new activity here.";

/// A notification to post.
#[derive(Debug, PartialEq, Eq)]
pub struct Notification {
    pub title: String,
    pub body: String,
}

/// The texts of a [`Notification`].
pub struct NotificationView {
    pub title: Seq<char>,
    pub body: Seq<char>,
}

impl View for Notification {
    type V = NotificationView;

    open spec fn view(&self) -> NotificationView {
        NotificationView { title: self.title@, body: self.body@ }
    }
}

/// The view of an optional notification.
pub open spec fn optional_notification(n: Option<Notification>) -> Option<NotificationView> {
    match n {
        Some(notification) => Some(notification@),
        None => None,
    }
}

// ---------------------------------------------------------------------------
// Notifications of the page
// ---------------------------------------------------------------------------
/// One notification, as the page hands it over: its title `t` and its body
/// `b`.
#[derive(Debug, PartialEq, Eq)]
pub struct NotifyItem {
    pub t: String,
    pub b: String,
}

impl View for NotifyItem {
    type V = NotificationView;

    open spec fn view(&self) -> NotificationView {
        NotificationView { title: self.t@, body: self.b@ }
    }
}

/// What the page handed over, where its message could be read.
pub open spec fn handed_over(items: Option<Vec<NotifyItem>>) -> Seq<NotificationView> {
    match items {
        Some(list) => list@.map_values(|item: NotifyItem| item@),
        None => Seq::empty(),
    }
}

/// The notifications to post for a message of the page, given its items: one
/// for each item, in their order. `None` stands for a message that could not
/// be read, for which none is posted.
pub fn notifications(items: Option<Vec<NotifyItem>>) -> (posted: Vec<Notification>)
    ensures
        posted@.map_values(|n: Notification| n@) == handed_over(items),
{
    let mut posted: Vec<Notification> = Vec::new();
    match items {
        Some(list) => {
            let mut i: usize = 0;
            while i < list.len()
                invariant
                    i <= list@.len(),
                    posted@.len() == i,
                    forall|k: int| 0 <= k < i ==> (#[trigger] posted@[k])@ == list@[k]@,
                decreases list.len() - i,
            {
                posted.push(Notification { title: list[i].t.clone(), body: list[i].b.clone() });
                i = i + 1;
            }
        },
        None => {},
    }
    assert(posted@.map_values(|n: Notification| n@) =~= handed_over(items));
    posted
}

// ---------------------------------------------------------------------------
// The welcome
// ---------------------------------------------------------------------------
/// What a welcome takes: the notification to post, and the flag to write
/// behind it.
#[derive(Debug, PartialEq, Eq)]
pub struct Welcome {
    pub notification: Notification,
    pub flag_file: String,
    pub flag_contents: String,
}

/// The texts of a [`Welcome`].
pub struct WelcomeView {
    pub notification: NotificationView,
    pub flag_file: Seq<char>,
    pub flag_contents: Seq<char>,
}

impl View for Welcome {
    type V = WelcomeView;

    open spec fn view(&self) -> WelcomeView {
        WelcomeView {
            notification: self.notification@,
            flag_file: self.flag_file@,
            flag_contents: self.flag_contents@,
        }
    }
}

/// The welcome, if one is due: the configuration directory is known and holds
/// no flag yet.
pub open spec fn welcome(directory_known: bool, flag_exists: bool) -> Option<WelcomeView> {
    if directory_known && !flag_exists {
        Some(
            WelcomeView {
                notification: NotificationView { title: APP_NAME@, body: WELCOME_BODY@ },
                flag_file: WELCOME_FLAG@,
                flag_contents: WELCOME_FLAG_CONTENTS@,
            },
        )
    } else {
        None
    }
}

/// The welcome, if one is due: the configuration directory is known and holds
/// no flag yet.
pub fn welcome_if_first_launch(directory_known: bool, flag_exists: bool) -> (due: Option<Welcome>)
    ensures
        match due {
            Some(w) => welcome(directory_known, flag_exists) == Some(w@),
            None => welcome(directory_known, flag_exists) is None,
        },
{
    if !directory_known || flag_exists {
        return None;
    }
    Some(
        Welcome {
            notification: Notification {
                title: APP_NAME.to_string(),
                body: WELCOME_BODY.to_string(),
            },
            flag_file: WELCOME_FLAG.to_string(),
            flag_contents: WELCOME_FLAG_CONTENTS.to_string(),
        },
    )
}

// ---------------------------------------------------------------------------
// Laws
// ---------------------------------------------------------------------------
/// The names of the files in the configuration directory after a launch that
/// found `files` there and wrote the flag of the welcome that was due.
pub open spec fn files_after_launch(files: Set<Seq<char>>) -> Set<Seq<char>> {
    match welcome(true, files.contains(WELCOME_FLAG@)) {
        Some(w) => files.insert(w.flag_file),
        None => files,
    }
}

/// The user is welcomed on the first launch and never again.
pub proof fn law_welcomed_once(files: Set<Seq<char>>)
    requires
        !files.contains(WELCOME_FLAG@),
    ensures
        welcome(true, files.contains(WELCOME_FLAG@)) is Some,
        welcome(true, files_after_launch(files).contains(WELCOME_FLAG@)) is None,
        files_after_launch(files_after_launch(files)) == files_after_launch(files),
{
}

/// The views of notifications hold their titles and bodies.
pub proof fn law_notification_view(notification: Notification, item: NotifyItem, w: Welcome)
    ensures
        notification@.title == notification.title@ && notification@.body == notification.body@,
        item@.title == item.t@ && item@.body == item.b@,
        w@.notification == w.notification@,
        w@.flag_file == w.flag_file@ && w@.flag_contents == w.flag_contents@,
        optional_notification(Some(notification)) == Some(notification@),
        optional_notification(None) is None,
{
}

/// Every item that the page hands over is posted, in its place, with its title
/// and its body as they are, and nothing else is; of a message that could not
/// be read nothing is posted.
pub proof fn law_every_item_is_posted(list: Vec<NotifyItem>)
    ensures
        handed_over(Some(list)).len() == list@.len(),
        forall|i: int|
            0 <= i < list@.len() ==> (#[trigger] handed_over(Some(list))[i]).title == list@[i].t@
                && handed_over(Some(list))[i].body == list@[i].b@,
        handed_over(None).len() == 0,
{
}

/// The welcome is due exactly where the configuration directory is known and
/// the flag is not there; it says that notifications are on, and leaves the
/// flag `notif-welcomed` behind.
pub proof fn law_welcome(directory_known: bool, flag_exists: bool)
    ensures
        welcome(directory_known, flag_exists) is Some <==> directory_known && !flag_exists,
        match welcome(directory_known, flag_exists) {
            Some(due) => {
                &&& due.notification.title == "Agency OS"@
                &&& due.notification.body
                    == "Notifications are on — you'll be alerted about new activity here."@
                &&& due.flag_file == "notif-welcomed"@
                &&& due.flag_contents == "1"@
            },
            None => true,
        },
{
}

} // verus!
