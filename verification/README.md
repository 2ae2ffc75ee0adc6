# Agency OS desktop client

A desktop client for Agency OS. It shows the cockpit of a server,
`<url>/agency-os/`, in a native window, remembers the server between launches,
and keeps itself up to date.

- `src/` is the verified library: every decision of the client, as functions on
  plain values whose contracts Verus proves.
  - `text`: searching, trimming and segments of texts
  - `page_url`: URLs, taken apart, and their query parameters
  - `pages`: which pages are documents or calls; file names and window labels
  - `navigation`: what becomes of a navigation, window by window
  - `server`: the remembered server, the entry point of its cockpit, the first
    page
  - `windows`: preview and call windows
  - `downloads`: the save dialog, the queue of chosen places, notifications
  - `scripts`: the scripts that run in the pages
  - `notices`: notifications and the welcome
  - `updates`: the check for updates and the watcher in the background
  - `menu`: the items of the menu bar
- `app/` is the shell: windows, dialogs, files, threads and the updater, on
  [Tauri](https://tauri.app).
- `tests/` runs the library with the outside crates that it calls.

The library relies, without proof, on what it states of `url::Url::parse`,
`url::form_urlencoded::parse`, `serde_json::to_string` and `String::push`.
