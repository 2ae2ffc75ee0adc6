//! What the items of the menu bar do.
use vstd::prelude::*;

use crate::page_url;
use crate::page_url::PageUrl;
use crate::page_url::UrlView;
use crate::scripts;
use crate::text;

verus! {

/// The identifier of the item that leads back to the connect page.
pub const CHANGE_SERVER: &'static str = "change-server";

/// The identifier of the item that reloads the page.
pub const RELOAD: &'static str = "reload";

/// The identifier of the item that opens or closes the developer tools.
pub const DEVTOOLS: &'static str = "devtools";

/// The identifier of the item that looks for an update.
pub const CHECK_UPDATES: &'static str = "check-updates";

/// The connect page, filled in with the current server so that it can be
/// changed.
pub const CHANGE_SERVER_URL: &'static str = "tauri://localhost/index.html?change=1";

/// What an item of the menu does.
#[derive(Debug, PartialEq, Eq)]
pub enum MenuAction {
    /// Nothing.
    Nothing,
    /// The main window navigates to a page.
    Navigate(PageUrl),
    /// The main window runs a script.
    RunScript(String),
    /// The main window opens its developer tools.
    OpenDevtools,
    /// The main window closes its developer tools.
    CloseDevtools,
    /// The client looks for an update and reports what it finds.
    CheckForUpdates,
}

/// The contents of a [`MenuAction`].
pub enum MenuActionView {
    Nothing,
    Navigate(UrlView),
    RunScript(Seq<char>),
    OpenDevtools,
    CloseDevtools,
    CheckForUpdates,
}

impl View for MenuAction {
    type V = MenuActionView;

    open spec fn view(&self) -> MenuActionView {
        match self {
            MenuAction::Nothing => MenuActionView::Nothing,
            MenuAction::Navigate(url) => MenuActionView::Navigate(url@),
            MenuAction::RunScript(script) => MenuActionView::RunScript(script@),
            MenuAction::OpenDevtools => MenuActionView::OpenDevtools,
            MenuAction::CloseDevtools => MenuActionView::CloseDevtools,
            MenuAction::CheckForUpdates => MenuActionView::CheckForUpdates,
        }
    }
}

/// What the item that leads to the connect page does, given what the page's
/// URL parses to.
pub open spec fn change_server_action(parsed: Result<UrlView, Seq<char>>) -> MenuActionView {
    match parsed {
        Ok(url) => MenuActionView::Navigate(url),
        Err(_) => MenuActionView::Nothing,
    }
}

/// What an item of the menu does. `devtools` says whether the developer tools
/// of the main window are open; it is `None` where there is no main window.
pub open spec fn action(id: Seq<char>, devtools: Option<bool>) -> MenuActionView {
    if id == CHECK_UPDATES@ {
        MenuActionView::CheckForUpdates
    } else {
        match devtools {
            Some(open) => if id == CHANGE_SERVER@ {
                change_server_action(page_url::url_parts(CHANGE_SERVER_URL@))
            } else if id == RELOAD@ {
                MenuActionView::RunScript(scripts::RELOAD_JS@)
            } else if id == DEVTOOLS@ {
                if open {
                    MenuActionView::CloseDevtools
                } else {
                    MenuActionView::OpenDevtools
                }
            } else {
                MenuActionView::Nothing
            },
            None => MenuActionView::Nothing,
        }
    }
}

/// What the item that leads to the connect page does, given what the page's
/// URL parses to.
pub fn change_server(parsed: Result<PageUrl, String>) -> (outcome: MenuAction)
    ensures
        outcome@ == change_server_action(page_url::parse_view(parsed)),
{
    match parsed {
        Ok(url) => MenuAction::Navigate(url),
        Err(_) => MenuAction::Nothing,
    }
}

/// What the item of the menu with the given identifier does. `devtools` says
/// whether the developer tools of the main window are open; it is `None` where
/// there is no main window.
pub fn menu_action(id: &str, devtools: Option<bool>) -> (outcome: MenuAction)
    ensures
        outcome@ == action(id@, devtools),
{
    if text::same_text(id, CHECK_UPDATES) {
        return MenuAction::CheckForUpdates;
    }
    match devtools {
        Some(open) => {
            if text::same_text(id, CHANGE_SERVER) {
                change_server(page_url::parse_url(CHANGE_SERVER_URL))
            } else if text::same_text(id, RELOAD) {
                MenuAction::RunScript(scripts::RELOAD_JS.to_string())
            } else if text::same_text(id, DEVTOOLS) {
                if open {
                    MenuAction::CloseDevtools
                } else {
                    MenuAction::OpenDevtools
                }
            } else {
                MenuAction::Nothing
            }
        },
        None => MenuAction::Nothing,
    }
}

// ---------------------------------------------------------------------------
// Laws
// ---------------------------------------------------------------------------
/// The identifiers of the items are different texts.
pub proof fn law_identifiers_distinct()
    ensures
        CHANGE_SERVER@ != RELOAD@,
        CHANGE_SERVER@ != DEVTOOLS@,
        CHANGE_SERVER@ != CHECK_UPDATES@,
        RELOAD@ != DEVTOOLS@,
        RELOAD@ != CHECK_UPDATES@,
        DEVTOOLS@ != CHECK_UPDATES@,
{
    reveal_strlit("change-server");
    reveal_strlit("reload");
    reveal_strlit("devtools");
    reveal_strlit("check-updates");
    assert(CHANGE_SERVER@.len() == 13 && CHECK_UPDATES@.len() == 13);
    assert(RELOAD@.len() == 6 && DEVTOOLS@.len() == 8);
    assert(CHANGE_SERVER@[2] == 'a' && CHECK_UPDATES@[2] == 'e');
}

/// The item for the developer tools toggles them: open tools close, closed
/// tools open.
pub proof fn law_devtools_toggle(open: bool)
    ensures
        action(DEVTOOLS@, Some(open)) == if open {
            MenuActionView::CloseDevtools
        } else {
            MenuActionView::OpenDevtools
        },
{
    law_identifiers_distinct();
}

/// Without a main window only the item that looks for updates does anything.
pub proof fn law_no_window_no_action(id: Seq<char>)
    ensures
        action(id, None) is Nothing <==> id != CHECK_UPDATES@,
{
}

/// The view of an action holds what it carries.
pub proof fn law_action_view(outcome: MenuAction)
    ensures
        match outcome {
            MenuAction::Nothing => outcome@ is Nothing,
            MenuAction::Navigate(url) => outcome@ == MenuActionView::Navigate(url@),
            MenuAction::RunScript(script) => outcome@ == MenuActionView::RunScript(script@),
            MenuAction::OpenDevtools => outcome@ is OpenDevtools,
            MenuAction::CloseDevtools => outcome@ is CloseDevtools,
            MenuAction::CheckForUpdates => outcome@ is CheckForUpdates,
        },
{
}

/// Each item does one thing: the first leads to the connect page, the second
/// reloads the page, and the last looks for updates, with or without a main
/// window; an identifier of no item does nothing. Whether the developer tools
/// are open matters to their own item alone.
pub proof fn law_items(id: Seq<char>, open: bool, devtools: Option<bool>)
    ensures
        match page_url::url_parts("tauri://localhost/index.html?change=1"@) {
            Ok(url) => action("change-server"@, Some(open)) == MenuActionView::Navigate(url),
            Err(_) => action("change-server"@, Some(open)) is Nothing,
        },
        action("reload"@, Some(open)) == MenuActionView::RunScript("window.location.reload()"@),
        action("devtools"@, Some(true)) is CloseDevtools,
        action("devtools"@, Some(false)) is OpenDevtools,
        action("check-updates"@, devtools) is CheckForUpdates,
        id != "change-server"@ && id != "reload"@ && id != "devtools"@ && id != "check-updates"@
            ==> action(id, devtools) is Nothing,
        id != "check-updates"@ ==> action(id, None) is Nothing,
{
    law_identifiers_distinct();
}

/// The item for the connect page leads to whatever its URL parses to.
pub proof fn law_change_server(url: UrlView, message: Seq<char>)
    ensures
        change_server_action(Ok(url)) == MenuActionView::Navigate(url),
        change_server_action(Err(message)) is Nothing,
{
}

} // verus!
