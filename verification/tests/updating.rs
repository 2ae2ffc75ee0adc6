use agency_os_desktop::notices::Notification;
use agency_os_desktop::updates::{
    begin_check, check_for_updates, spawn_update_watcher, Message, Question, UpdateEvent,
    UpdatePhase, UpdateWatcher, WatchEvent, WatchPhase,
};

fn run(interactive: bool, events: Vec<UpdateEvent>) -> UpdatePhase {
    let mut phase = begin_check();
    for event in events {
        phase = check_for_updates(interactive, phase, event);
    }
    phase
}

fn tell(text: &str) -> UpdatePhase {
    UpdatePhase::Telling(Message { title: "Agency OS".to_string(), text: text.to_string() })
}

fn found() -> UpdateEvent {
    UpdateEvent::Found("1.2.3".to_string())
}

#[test]
fn an_interactive_check_asks_installs_and_restarts() {
    assert_eq!(run(true, vec![]), UpdatePhase::Opening);
    assert_eq!(run(true, vec![UpdateEvent::Opened]), UpdatePhase::Checking);
    assert_eq!(
        run(true, vec![UpdateEvent::Opened, found()]),
        UpdatePhase::Asking(Question {
            title: "Update available".to_string(),
            text: "Agency OS 1.2.3 is available.\nInstall it now and restart?".to_string(),
            accept: "Install & Restart".to_string(),
            decline: "Later".to_string(),
        })
    );
    let yes = UpdateEvent::Answered(true);
    assert_eq!(run(true, vec![UpdateEvent::Opened, found(), yes]), UpdatePhase::Installing);
    let yes = UpdateEvent::Answered(true);
    assert_eq!(
        run(true, vec![UpdateEvent::Opened, found(), yes, UpdateEvent::Installed]),
        UpdatePhase::Restarting
    );
    let no = UpdateEvent::Answered(false);
    assert_eq!(run(true, vec![UpdateEvent::Opened, found(), no]), UpdatePhase::Finished);
}

#[test]
fn an_interactive_check_reports() {
    assert_eq!(
        run(true, vec![UpdateEvent::Unavailable("e1".to_string())]),
        tell("Updater unavailable:\ne1")
    );
    assert_eq!(
        run(true, vec![UpdateEvent::Opened, UpdateEvent::UpToDate]),
        tell("You're on the latest version.")
    );
    assert_eq!(
        run(true, vec![UpdateEvent::Opened, UpdateEvent::CheckFailed("e2".to_string())]),
        tell("Couldn't check for updates:\ne2")
    );
    let yes = UpdateEvent::Answered(true);
    let failed = UpdateEvent::InstallFailed("e3".to_string());
    assert_eq!(
        run(true, vec![UpdateEvent::Opened, found(), yes, failed]),
        tell("Update failed:\ne3")
    );
    assert_eq!(
        run(true, vec![UpdateEvent::Opened, UpdateEvent::UpToDate, UpdateEvent::Dismissed]),
        UpdatePhase::Finished
    );
}

#[test]
fn a_silent_check_is_silent() {
    let opened = || UpdateEvent::Opened;
    assert_eq!(run(false, vec![opened(), found()]), UpdatePhase::Installing);
    assert_eq!(
        run(false, vec![opened(), found(), UpdateEvent::Installed]),
        UpdatePhase::Finished
    );
    let failed = UpdateEvent::InstallFailed("e".to_string());
    assert_eq!(run(false, vec![opened(), found(), failed]), UpdatePhase::Finished);
    assert_eq!(run(false, vec![opened(), UpdateEvent::UpToDate]), UpdatePhase::Finished);
    let check_failed = UpdateEvent::CheckFailed("e".to_string());
    assert_eq!(run(false, vec![opened(), check_failed]), UpdatePhase::Finished);
    let unavailable = UpdateEvent::Unavailable("e".to_string());
    assert_eq!(run(false, vec![unavailable]), UpdatePhase::Finished);
}

#[test]
fn events_out_of_place_change_nothing() {
    assert_eq!(run(true, vec![UpdateEvent::Installed]), UpdatePhase::Opening);
    assert_eq!(run(true, vec![UpdateEvent::Opened, UpdateEvent::Opened]), UpdatePhase::Checking);
    let no = UpdateEvent::Answered(false);
    assert_eq!(run(true, vec![UpdateEvent::Opened, found(), no, found()]), UpdatePhase::Finished);
}

fn step(watcher: UpdateWatcher, event: WatchEvent) -> UpdateWatcher {
    watcher.after(event)
}

/// One round of the watcher that finds and stages a version: what it posts.
fn round(watcher: UpdateWatcher, version: &str, staged: bool) -> (UpdateWatcher, Option<Notification>) {
    assert_eq!(watcher.phase, WatchPhase::Checking);
    let watcher = step(watcher, WatchEvent::Checked(Some(version.to_string())));
    assert_eq!(watcher.phase, WatchPhase::Installing(version.to_string()));
    let watcher = step(watcher, WatchEvent::Installed(staged));
    let UpdateWatcher { phase, announced } = watcher;
    let (watcher, posted) = match phase {
        WatchPhase::Announcing(notification) => {
            let copy = Notification {
                title: notification.title.clone(),
                body: notification.body.clone(),
            };
            let phase = WatchPhase::Announcing(notification);
            (step(UpdateWatcher { phase, announced }, WatchEvent::Posted), Some(copy))
        }
        phase => (UpdateWatcher { phase, announced }, None),
    };
    assert_eq!(watcher.phase, WatchPhase::Waiting);
    (step(watcher, WatchEvent::Slept), posted)
}

fn ready(version: &str) -> Option<Notification> {
    Some(Notification {
        title: "Agency OS update ready".to_string(),
        body: format!("Version {version} is downloaded — quit and reopen Agency OS to update."),
    })
}

fn watching() -> UpdateWatcher {
    let watcher = spawn_update_watcher();
    assert_eq!(watcher.sleep_seconds(), Some(2));
    let watcher = step(watcher, WatchEvent::Slept);
    assert_eq!(watcher.phase, WatchPhase::Welcoming);
    assert_eq!(watcher.sleep_seconds(), None);
    step(watcher, WatchEvent::Welcomed)
}

#[test]
fn a_version_is_announced_once() {
    let (watcher, posted) = round(watching(), "1.1.0", true);
    assert_eq!(posted, ready("1.1.0"));
    let (watcher, posted) = round(watcher, "1.1.0", true);
    assert_eq!(posted, None);
    let (watcher, posted) = round(watcher, "1.2.0", true);
    assert_eq!(posted, ready("1.2.0"));
    let (watcher, posted) = round(watcher, "1.2.0", true);
    assert_eq!(posted, None);
    let (watcher, posted) = round(watcher, "1.1.0", true);
    assert_eq!(posted, None);
    let (watcher, posted) = round(watcher, "1.3.0", true);
    assert_eq!(posted, ready("1.3.0"));
    assert_eq!(watcher.announced, vec!["1.1.0", "1.2.0", "1.3.0"]);
}

#[test]
fn what_could_not_be_staged_is_not_announced() {
    let (watcher, posted) = round(watching(), "1.1.0", false);
    assert_eq!(posted, None);
    let (_, posted) = round(watcher, "1.1.0", true);
    assert_eq!(posted, ready("1.1.0"));
}

#[test]
fn the_watcher_waits_six_hours() {
    let watcher = step(watching(), WatchEvent::Checked(None));
    assert_eq!(watcher.phase, WatchPhase::Waiting);
    assert_eq!(watcher.sleep_seconds(), Some(6 * 60 * 60));
    let watcher = step(watcher, WatchEvent::Posted);
    assert_eq!(watcher.phase, WatchPhase::Waiting);
    let watcher = step(watcher, WatchEvent::Slept);
    assert_eq!(watcher.phase, WatchPhase::Checking);
}
