//! The scripts that the client runs in its pages.
use vstd::prelude::*;

use crate::text;

verus! {

/// Hands `target="_blank"` links and calls of `window.open` over to the
/// client, by a navigation to the host of link messages that carries the link
/// in the parameter `u`.
pub const LINK_INTERCEPT_JS: &'static str = r#"
(function () {
  function ext(url) {
    try {
      var abs = new URL(url, location.href).href;
      window.location.href = "https://ext.agencyos.invalid/?u=" + encodeURIComponent(abs);
    } catch (e) {}
  }
  document.addEventListener(
    "click",
    function (e) {
      var a = e.target && e.target.closest ? e.target.closest("a") : null;
      if (a && a.target === "_blank" && a.href) {
        e.preventDefault();
        ext(a.href);
      }
    },
    true,
  );
  window.open = function (url) {
    if (url) ext(url);
    return null;
  };
})();
"#;

/// Watches the page's requests for its notifications and hands new unread
/// ones over to the client, by a navigation to the host of notification
/// messages that carries them, as JSON, in the parameter `n`. The first
/// response only records what is already there.
pub const NOTIFY_JS: &'static str = r#"
(function () {
  var seen = new Set();
  var primed = false;

  function strip(html) {
    var d = document.createElement("div");
    d.innerHTML = html || "";
    return (d.textContent || d.innerText || "").replace(/\s+/g, " ").trim();
  }

  function handle(json) {
    var list =
      (json && json.message && json.message.notifications) ||
      (json && json.notifications);
    if (!Array.isArray(list)) return;

    var fresh = [];
    for (var i = 0; i < list.length; i++) {
      var n = list[i];
      if (!n || !n.name) continue;
      var isNew = !seen.has(n.name);
      seen.add(n.name);
      if (primed && isNew && !n.read) {
        var body = strip(n.subject);
        if (body) fresh.push({ t: "Agency OS", b: body });
      }
    }
    // First response just records the backlog so we don't notify old items.
    if (!primed) {
      primed = true;
      return;
    }
    if (fresh.length) {
      try {
        var payload = encodeURIComponent(JSON.stringify(fresh.slice(0, 5)));
        window.location.href = "https://notify.agencyos.invalid/?n=" + payload;
      } catch (e) {}
    }
  }

  var origFetch = window.fetch;
  window.fetch = function () {
    var args = arguments;
    return origFetch.apply(this, args).then(function (res) {
      try {
        var url = (args[0] && args[0].url) || args[0];
        if (
          typeof url === "string" &&
          url.indexOf("notifications.get_notifications") !== -1
        ) {
          res
            .clone()
            .json()
            .then(handle)
            .catch(function () {});
        }
      } catch (e) {}
      return res;
    });
  };
})();
"#;

/// Defines, where it is not defined yet, the note with a spinner that the main
/// window shows while exports are being prepared.
pub const DL_INDICATOR_JS: &'static str = r#"
window.__agencyDl = window.__agencyDl || (function () {
  var n = 0, timer = null;
  function ensureToast() {
    if (!document.getElementById('agency-dl-style')) {
      var s = document.createElement('style');
      s.id = 'agency-dl-style';
      s.textContent =
        '@keyframes agencyDlSpin{to{transform:rotate(360deg)}}' +
        '#agency-dl-toast{position:fixed;right:20px;bottom:20px;z-index:2147483647;display:flex;align-items:center;gap:10px;padding:11px 15px;border-radius:10px;background:rgba(20,20,22,.92);color:#fff;font:13px/1.2 -apple-system,BlinkMacSystemFont,system-ui,sans-serif;box-shadow:0 8px 28px rgba(0,0,0,.32);opacity:0;transition:opacity .2s;pointer-events:none}' +
        '#agency-dl-toast .agency-dl-spin{width:14px;height:14px;border-radius:50%;border:2px solid rgba(255,255,255,.3);border-top-color:#fff;animation:agencyDlSpin .7s linear infinite}';
      (document.head || document.documentElement).appendChild(s);
    }
    var t = document.getElementById('agency-dl-toast');
    if (!t) {
      t = document.createElement('div');
      t.id = 'agency-dl-toast';
      t.innerHTML = '<span class="agency-dl-spin"></span><span class="agency-dl-label"></span>';
      (document.body || document.documentElement).appendChild(t);
    }
    return t;
  }
  function render() {
    var t = ensureToast();
    t.querySelector('.agency-dl-label').textContent =
      n > 1 ? ('Preparing ' + n + ' PDFs…') : 'Preparing PDF…';
    requestAnimationFrame(function () { t.style.opacity = '1'; });
  }
  function hide() {
    var t = document.getElementById('agency-dl-toast');
    if (!t) return;
    t.style.opacity = '0';
    setTimeout(function () { if (n <= 0 && t.parentNode) t.parentNode.removeChild(t); }, 250);
  }
  return {
    inc: function () {
      n++;
      render();
      if (timer) clearTimeout(timer);
      // Safety net: clear the spinner even if no finish event ever arrives.
      timer = setTimeout(function () { n = 0; hide(); }, 120000);
    },
    dec: function () {
      n = Math.max(0, n - 1);
      if (n <= 0) {
        if (timer) { clearTimeout(timer); timer = null; }
        hide();
      } else {
        render();
      }
    }
  };
})();
"#;

/// Reloads the page.
pub const RELOAD_JS: &'static str = "window.location.reload()";

/// What follows the definition of the note when a download starts, up to the
/// URL of the download.
pub const START_HEAD: &'static str = r#"
try { window.__agencyDl.inc(); } catch (e) {}
(function () {
  try {
    var a = document.createElement('a');
    a.href = "#;

/// What follows the URL when a download starts. The `download` attribute makes
/// the web view download the target instead of showing it.
pub const START_TAIL: &'static str = r#";
    a.download = '';
    a.rel = 'noopener';
    a.style.display = 'none';
    document.body.appendChild(a);
    a.click();
    setTimeout(function () { a.remove(); }, 0);
  } catch (e) {}
})();"#;

/// What follows the definition of the note when a download ends.
pub const DONE_TAIL: &'static str = "\ntry { window.__agencyDl.dec(); } catch (e) {}";

/// The literal for an empty text.
pub const EMPTY_LITERAL: &'static str = "\"\"";

// ---------------------------------------------------------------------------
// String literals
// ---------------------------------------------------------------------------
/// The lower-case hexadecimal digit of a number below sixteen.
pub open spec fn hex_digit(d: int) -> char {
    if d < 10 {
        (48 + d) as char
    } else {
        (87 + d) as char
    }
}

/// A character as JSON writes it in a string.
pub open spec fn json_character(c: char) -> Seq<char> {
    if c == '"' || c == '\\' {
        seq!['\\', c]
    } else if c == '\u{8}' {
        seq!['\\', 'b']
    } else if c == '\t' {
        seq!['\\', 't']
    } else if c == '\n' {
        seq!['\\', 'n']
    } else if c == '\u{c}' {
        seq!['\\', 'f']
    } else if c == '\r' {
        seq!['\\', 'r']
    } else if c <= '\u{1f}' {
        seq!['\\', 'u', '0', '0', hex_digit(c as int / 16), hex_digit(c as int % 16)]
    } else {
        seq![c]
    }
}

/// A text as JSON writes it between the quotes of a string.
pub open spec fn json_characters(s: Seq<char>) -> Seq<char>
    decreases s.len(),
{
    if s.len() == 0 {
        Seq::empty()
    } else {
        json_character(s[0]) + json_characters(s.drop_first())
    }
}

/// A text as a JSON string.
pub open spec fn json_string(s: Seq<char>) -> Seq<char> {
    seq!['"'] + json_characters(s) + seq!['"']
}

/// `serde_json::Error`, of which nothing is read.
#[verifier::external_type_specification]
#[verifier::external_body]
pub struct ExJsonError(serde_json::Error);

/// Writes a text as a JSON string with `serde_json::to_string`, which succeeds
/// on every text: a quote, a backslash and the control characters below the
/// space are escaped, everything else stands for itself.
#[verifier::external_body]
fn to_json(text: &str) -> (literal: Result<String, serde_json::Error>)
    ensures
        literal is Ok,
        literal->Ok_0@ == json_string(text@),
{
    serde_json::to_string(text)
}

/// A text as a string literal of a script.
pub fn literal(text: &str) -> (literal: String)
    ensures
        literal@ == json_string(text@),
{
    match to_json(text) {
        Ok(written) => written,
        Err(_) => EMPTY_LITERAL.to_string(),
    }
}

// ---------------------------------------------------------------------------
// Downloads
// ---------------------------------------------------------------------------
/// The script that starts a download, given the literal of its URL.
pub open spec fn start_script(literal: Seq<char>) -> Seq<char> {
    DL_INDICATOR_JS@ + START_HEAD@ + literal + START_TAIL@
}

/// The script that starts a download, given the literal of its URL.
pub fn download_start_script(literal: &str) -> (script: String)
    ensures
        script@ == start_script(literal@),
{
    let mut script = text::joined(DL_INDICATOR_JS, START_HEAD);
    script.append(literal);
    script.append(START_TAIL);
    script
}

/// The script that shows the note and downloads a URL in the main window.
pub fn download_start_js(url: &str) -> (script: String)
    ensures
        script@ == start_script(json_string(url@)),
{
    let written = literal(url);
    download_start_script(written.as_str())
}

/// The script that takes the note away when a download has ended.
pub open spec fn done_script() -> Seq<char> {
    DL_INDICATOR_JS@ + DONE_TAIL@
}

/// The script that takes the note away when a download has ended.
pub fn download_done_js() -> (script: String)
    ensures
        script@ == done_script(),
{
    text::joined(DL_INDICATOR_JS, DONE_TAIL)
}

// ---------------------------------------------------------------------------
// Laws
// ---------------------------------------------------------------------------
/// The number that a hexadecimal digit stands for.
pub open spec fn hex_value(c: char) -> Option<int> {
    if '0' <= c <= '9' {
        Some(c as int - 48)
    } else if 'a' <= c <= 'f' {
        Some(c as int - 87)
    } else if 'A' <= c <= 'F' {
        Some(c as int - 55)
    } else {
        None
    }
}

/// The character that an escape stands for, and the length of the escape,
/// where `t` begins with the character behind the backslash. Of the escapes by
/// number only those below 256 are read.
pub open spec fn escape_value(t: Seq<char>) -> Option<(char, int)> {
    if t.len() == 0 {
        None
    } else if t[0] == '"' || t[0] == '\\' || t[0] == '/' {
        Some((t[0], 1))
    } else if t[0] == 'b' {
        Some(('\u{8}', 1))
    } else if t[0] == 't' {
        Some(('\t', 1))
    } else if t[0] == 'n' {
        Some(('\n', 1))
    } else if t[0] == 'f' {
        Some(('\u{c}', 1))
    } else if t[0] == 'r' {
        Some(('\r', 1))
    } else if t[0] == 'u' && t.len() >= 5 && t[1] == '0' && t[2] == '0' {
        match (hex_value(t[3]), hex_value(t[4])) {
            (Some(high), Some(low)) => Some(((16 * high + low) as char, 5)),
            _ => None,
        }
    } else {
        None
    }
}

/// Reads a string literal whose opening quote stands before `t`: the text that
/// it denotes, and what follows its closing quote. A control character that is
/// not escaped makes it no literal.
pub open spec fn read_literal(t: Seq<char>) -> Option<(Seq<char>, Seq<char>)>
    decreases t.len(),
{
    if t.len() == 0 || t[0] <= '\u{1f}' {
        None
    } else if t[0] == '"' {
        Some((Seq::empty(), t.drop_first()))
    } else if t[0] == '\\' {
        match escape_value(t.drop_first()) {
            Some((c, n)) => match read_literal(t.skip(1 + n)) {
                Some((value, rest)) => Some((seq![c] + value, rest)),
                None => None,
            },
            None => None,
        }
    } else {
        match read_literal(t.drop_first()) {
            Some((value, rest)) => Some((seq![t[0]] + value, rest)),
            None => None,
        }
    }
}

/// Whatever a text holds, its literal denotes just that text and ends where it
/// should: what follows the literal in a script is not taken for a part of it.
pub proof fn law_literal_denotes_text(s: Seq<char>, rest: Seq<char>)
    ensures
        json_string(s)[0] == '"',
        read_literal((json_string(s) + rest).drop_first()) == Some((s, rest)),
{
    lemma_read_characters(s, rest);
    assert((json_string(s) + rest).drop_first() =~= json_characters(s) + (seq!['"'] + rest));
}

/// The script that starts a download assigns the URL of the download and
/// nothing else: whatever the URL holds, the literal behind the head of the
/// script denotes it, and the tail of the script follows the literal.
pub proof fn law_download_script_targets_url(url: Seq<char>)
    ensures
        ({
            let script = start_script(json_string(url));
            let at = (DL_INDICATOR_JS@ + START_HEAD@).len() as int;
            &&& script[at] == '"'
            &&& read_literal(script.skip(at + 1)) == Some((url, START_TAIL@))
        }),
{
    let script = start_script(json_string(url));
    let at = (DL_INDICATOR_JS@ + START_HEAD@).len() as int;
    law_literal_denotes_text(url, START_TAIL@);
    assert(script.skip(at) =~= json_string(url) + START_TAIL@);
    assert(script.skip(at + 1) =~= (json_string(url) + START_TAIL@).drop_first());
    assert(script[at] == script.skip(at)[0]);
}

proof fn lemma_characters_count_from_zero(c: char)
    ensures
        0 <= c as int,
{
}

proof fn lemma_read_characters(s: Seq<char>, rest: Seq<char>)
    ensures
        read_literal(json_characters(s) + (seq!['"'] + rest)) == Some((s, rest)),
    decreases s.len(),
{
    let tail = seq!['"'] + rest;
    let t = json_characters(s) + tail;
    if s.len() == 0 {
        assert(t =~= tail);
        assert(tail.drop_first() =~= rest);
        assert(s =~= Seq::<char>::empty());
    } else {
        let c = s[0];
        let more = s.drop_first();
        let after = json_characters(more) + tail;
        lemma_read_characters(more, rest);
        assert(t =~= json_character(c) + after);
        assert(seq![c] + more =~= s);
        let n = json_character(c).len() as int;
        assert(t.skip(n) =~= after);
        if n == 1 {
            assert(t.drop_first() =~= after);
        } else {
            let escape = t.drop_first();
            assert(t[0] == '\\');
            assert(escape[0] == json_character(c)[1]);
            if n == 6 {
                let (high, low) = (c as int / 16, c as int % 16);
                lemma_characters_count_from_zero(c);
                assert(c as int <= 31);
                assert(hex_digit(high) as int == 48 + high);
                assert(hex_digit(low) as int == if low < 10 {
                    48 + low
                } else {
                    87 + low
                });
                assert(escape[1] == '0' && escape[2] == '0');
                assert(escape[3] == hex_digit(high) && escape[4] == hex_digit(low));
                assert(16 * high + low == c as int);
            }
            assert(escape_value(escape) == Some((c, n - 1)));
        }
    }
}

/// The scripts of a download define the note first. The one that starts a
/// download counts it, assigns the literal as it is to a link that is marked
/// for download, and clicks the link; the one that ends it counts it off.
pub proof fn law_download_scripts(literal: Seq<char>)
    ensures
        ({
            let head = DL_INDICATOR_JS@ + START_HEAD@;
            let script = start_script(literal);
            &&& script.len() == head.len() + literal.len() + START_TAIL@.len()
            &&& script.take(head.len() as int) == head
            &&& script.subrange(head.len() as int, (head.len() + literal.len()) as int) == literal
            &&& script.skip((head.len() + literal.len()) as int) == START_TAIL@
        }),
        START_HEAD@
            == "\ntry { window.__agencyDl.inc(); } catch (e) {}\n(function () {\n  try {\n    var a = document.createElement('a');\n    a.href = "@,
        START_TAIL@
            == ";\n    a.download = '';\n    a.rel = 'noopener';\n    a.style.display = 'none';\n    document.body.appendChild(a);\n    a.click();\n    setTimeout(function () { a.remove(); }, 0);\n  } catch (e) {}\n})();"@,
        done_script() == DL_INDICATOR_JS@
            + "\ntry { window.__agencyDl.dec(); } catch (e) {}"@,
{
    let head = DL_INDICATOR_JS@ + START_HEAD@;
    let script = start_script(literal);
    assert(script.take(head.len() as int) =~= head);
    assert(script.subrange(head.len() as int, (head.len() + literal.len()) as int) =~= literal);
    assert(script.skip((head.len() + literal.len()) as int) =~= START_TAIL@);
}

/// A text without quotes, backslashes and control characters is its own
/// literal, between quotes.
pub proof fn law_plain_literal(s: Seq<char>)
    requires
        forall|i: int|
            0 <= i < s.len() ==> '\u{1f}' < #[trigger] s[i] && s[i] != '"' && s[i] != '\\',
    ensures
        json_string(s) == seq!['"'] + s + seq!['"'],
{
    lemma_plain_characters(s);
}

proof fn lemma_plain_characters(s: Seq<char>)
    requires
        forall|i: int|
            0 <= i < s.len() ==> '\u{1f}' < #[trigger] s[i] && s[i] != '"' && s[i] != '\\',
    ensures
        json_characters(s) == s,
    decreases s.len(),
{
    if s.len() > 0 {
        let more = s.drop_first();
        assert forall|i: int| 0 <= i < more.len() implies '\u{1f}' < #[trigger] more[i] && more[i]
            != '"' && more[i] != '\\' by {
            assert(more[i] == s[i + 1]);
        }
        lemma_plain_characters(more);
        assert(s[0] == s[0]);
        assert(json_character(s[0]) =~= seq![s[0]]);
        assert(seq![s[0]] + more =~= s);
    } else {
        assert(json_characters(s) =~= s);
    }
}

} // verus!
