use agency_os_desktop::notices::{
    notifications, welcome_if_first_launch, Notification, NotifyItem, Welcome,
};

fn item(t: &str, b: &str) -> NotifyItem {
    NotifyItem { t: t.to_string(), b: b.to_string() }
}

fn notification(title: &str, body: &str) -> Notification {
    Notification { title: title.to_string(), body: body.to_string() }
}

#[test]
fn each_item_is_posted() {
    let items = vec![item("Agency OS", "one"), item("", "two"), item("Agency OS", "one")];
    assert_eq!(
        notifications(Some(items)),
        vec![
            notification("Agency OS", "one"),
            notification("", "two"),
            notification("Agency OS", "one"),
        ]
    );
    assert_eq!(notifications(Some(vec![])), vec![]);
    assert_eq!(notifications(None), vec![]);
}

#[test]
fn the_user_is_welcomed_once() {
    assert_eq!(
        welcome_if_first_launch(true, false),
        Some(Welcome {
            notification: notification(
                "Agency OS",
                "Notifications are on — you'll be alerted about new activity here."
            ),
            flag_file: "notif-welcomed".to_string(),
            flag_contents: "1".to_string(),
        })
    );
    assert_eq!(welcome_if_first_launch(true, true), None);
    assert_eq!(welcome_if_first_launch(false, false), None);
    assert_eq!(welcome_if_first_launch(false, true), None);
}
