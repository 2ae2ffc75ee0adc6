use agency_os_desktop::navigation::{LINK_HOST, NOTIFICATION_HOST};
use agency_os_desktop::scripts;

#[test]
fn literals_escape_what_json_escapes() {
    assert_eq!(scripts::literal(""), "\"\"");
    assert_eq!(scripts::literal("https://h/?a=1&b='2'"), "\"https://h/?a=1&b='2'\"");
    assert_eq!(scripts::literal("a\"b\\c/d"), "\"a\\\"b\\\\c/d\"");
    assert_eq!(
        scripts::literal("\u{8}\t\n\u{c}\r"),
        "\"\\b\\t\\n\\f\\r\""
    );
    assert_eq!(
        scripts::literal("\0\u{1}\u{b}\u{1f} \u{7f}é…\u{2028}😀"),
        "\"\\u0000\\u0001\\u000b\\u001f \u{7f}é…\u{2028}😀\""
    );
}

#[test]
fn every_literal_denotes_its_text() {
    for code in 0..0x300u32 {
        let text = format!("<{}>", char::from_u32(code).unwrap());
        let read: String = serde_json::from_str(&scripts::literal(&text)).unwrap();
        assert_eq!(read, text);
    }
}

#[test]
fn the_script_that_starts_a_download() {
    let expected = format!(
        r#"{define}
try {{ window.__agencyDl.inc(); }} catch (e) {{}}
(function () {{
  try {{
    var a = document.createElement('a');
    a.href = {url};
    a.download = '';
    a.rel = 'noopener';
    a.style.display = 'none';
    document.body.appendChild(a);
    a.click();
    setTimeout(function () {{ a.remove(); }}, 0);
  }} catch (e) {{}}
}})();"#,
        define = scripts::DL_INDICATOR_JS,
        url = "\"https://h/x.pdf?q=\\\"\""
    );
    assert_eq!(scripts::download_start_js("https://h/x.pdf?q=\""), expected);
    assert!(scripts::download_start_script("1").contains("a.href = 1;\n"));
}

#[test]
fn the_script_that_ends_a_download() {
    let expected = format!(
        "{define}\ntry {{ window.__agencyDl.dec(); }} catch (e) {{}}",
        define = scripts::DL_INDICATOR_JS
    );
    assert_eq!(scripts::download_done_js(), expected);
    assert!(expected.starts_with("\nwindow.__agencyDl = window.__agencyDl || (function () {"));
}

#[test]
fn the_page_scripts_speak_to_the_message_hosts() {
    let link = format!("https://{LINK_HOST}/?u=");
    let notify = format!("https://{NOTIFICATION_HOST}/?n=");
    assert!(scripts::LINK_INTERCEPT_JS.contains(&link));
    assert!(scripts::NOTIFY_JS.contains(&notify));
    assert_eq!(scripts::RELOAD_JS, "window.location.reload()");
}
