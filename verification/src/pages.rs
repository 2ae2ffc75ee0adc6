//! Which pages get special treatment, and how what they open is named.
use vstd::prelude::*;

use crate::page_url;
use crate::page_url::PageUrl;
use crate::page_url::UrlView;
use crate::text;

verus! {

// ---------------------------------------------------------------------------
// Kinds of pages
// ---------------------------------------------------------------------------
/// A PDF export: the server's PDF endpoint, or a path to a PDF file.
pub open spec fn pdf_download(url: UrlView) -> bool {
    ||| text::occurs_in("print_format.download_pdf"@, url.path)
    ||| ".pdf"@.is_suffix_of(url.path)
}

/// The print preview of a document.
pub open spec fn print_preview(url: UrlView) -> bool {
    "/printview"@.is_prefix_of(url.path)
}

/// A print preview or a PDF export.
pub open spec fn document(url: UrlView) -> bool {
    pdf_download(url) || print_preview(url)
}

/// A video call: the room of a meeting, or the page where guests join it.
pub open spec fn meeting_room(url: UrlView) -> bool {
    ||| "/agency-os/meet/"@.is_prefix_of(url.path)
    ||| "/agency-os/join/"@.is_prefix_of(url.path)
}

/// The path is that of a directory, which is given with its closing slash, or
/// leads to something in it.
pub open spec fn under(path: Seq<char>, directory: Seq<char>) -> bool {
    directory.is_prefix_of(path) || path.push('/') == directory
}

/// The entry point of a server leads to a cockpit. It does unless the URL that
/// the user entered has a query or a fragment, behind which the path of the
/// cockpit does not count.
pub open spec fn leads_to_cockpit(server: UrlView) -> bool {
    "/agency-os/"@.is_suffix_of(server.path)
}

/// A page of the cockpit, given the server by the entry point of its cockpit:
/// a page under `/agency-os`, or under the entry point of a server that is not
/// at the root of its host.
pub open spec fn cockpit_page(url: UrlView, server: UrlView) -> bool {
    ||| under(url.path, "/agency-os/"@)
    ||| leads_to_cockpit(server) && under(url.path, server.path)
}

/// Is the path that of a directory, or does it lead to something in it?
fn is_under(path: &str, directory: &str) -> (yes: bool)
    ensures
        yes == under(path@, directory@),
{
    if text::starts_with(path, directory) {
        return true;
    }
    let closed = text::joined(path, "/");
    proof {
        reveal_strlit("/");
        assert(closed@ =~= path@.push('/'));
    }
    text::same_text(closed.as_str(), directory)
}

/// Is the page one of the cockpit, given the server by the entry point of its
/// cockpit?
pub fn is_cockpit_page(url: &PageUrl, server: &PageUrl) -> (yes: bool)
    ensures
        yes == cockpit_page(url@, server@),
{
    is_under(url.path.as_str(), "/agency-os/") || (text::ends_with(
        server.path.as_str(),
        "/agency-os/",
    ) && is_under(url.path.as_str(), server.path.as_str()))
}

/// Is the URL that of a PDF export?
pub fn looks_like_pdf_download(url: &PageUrl) -> (yes: bool)
    ensures
        yes == pdf_download(url@),
{
    text::contains(url.path.as_str(), "print_format.download_pdf") || text::ends_with(
        url.path.as_str(),
        ".pdf",
    )
}

/// Is the URL that of a print preview?
pub fn looks_like_print_preview(url: &PageUrl) -> (yes: bool)
    ensures
        yes == print_preview(url@),
{
    text::starts_with(url.path.as_str(), "/printview")
}

/// Is the URL that of a print preview or a PDF export?
pub fn is_document_url(url: &PageUrl) -> (yes: bool)
    ensures
        yes == document(url@),
{
    looks_like_pdf_download(url) || looks_like_print_preview(url)
}

/// Is the URL that of a video call?
pub fn looks_like_meeting_room(url: &PageUrl) -> (yes: bool)
    ensures
        yes == meeting_room(url@),
{
    text::starts_with(url.path.as_str(), "/agency-os/meet/") || text::starts_with(
        url.path.as_str(),
        "/agency-os/join/",
    )
}

// ---------------------------------------------------------------------------
// Names of exported files
// ---------------------------------------------------------------------------
/// The file name for an export, given the query parameters of its URL.
pub open spec fn pdf_name(pairs: Seq<(Seq<char>, Seq<char>)>) -> Seq<char> {
    match page_url::first_value(pairs, "name"@) {
        Some(name) if name.len() > 0 => name + ".pdf"@,
        _ => "document.pdf"@,
    }
}

/// The file name for an export, given the query parameters of its URL: the
/// document's name with `.pdf` behind it, or `document.pdf` where the document
/// is not named.
pub fn pdf_name_from(pairs: &Vec<(String, String)>) -> (name: String)
    ensures
        name@ == pdf_name(page_url::pairs_view(pairs@)),
{
    match page_url::find_value(pairs, "name") {
        Some(name) => {
            if name.as_str().is_empty() {
                "document.pdf".to_string()
            } else {
                text::joined(name.as_str(), ".pdf")
            }
        },
        None => "document.pdf".to_string(),
    }
}

/// The file name that is offered for the export at a URL.
pub fn suggested_pdf_name(url: &PageUrl) -> (name: String)
    ensures
        name@ == pdf_name(url@.pairs()),
{
    let pairs = url.query_pairs();
    pdf_name_from(&pairs)
}

/// The part of a path that begins at index `at` is `..`, which leads to the
/// directory above.
pub open spec fn climbs_at(path: Seq<char>, at: int) -> bool {
    &&& 0 <= at <= path.len() - 2
    &&& path[at] == '.' && path[at + 1] == '.'
    &&& at == 0 || path[at - 1] == '/'
    &&& at == path.len() - 2 || path[at + 2] == '/'
}

/// A file name, taken as a path from a directory, can lead out of it: it
/// begins at the root, or it climbs.
pub open spec fn leads_out(name: Seq<char>) -> bool {
    ||| name.len() > 0 && name[0] == '/'
    ||| exists|at: int| climbs_at(name, at)
}

/// The file name with an underscore in place of each slash, where it could
/// lead out of a directory.
pub open spec fn contained(name: Seq<char>) -> Seq<char> {
    if leads_out(name) {
        name.map_values(|c: char| if c == '/' { '_' } else { c })
    } else {
        name
    }
}

/// Can the file name lead out of a directory?
fn can_lead_out(name: &str) -> (yes: bool)
    ensures
        yes == leads_out(name@),
{
    let v = text::characters(name);
    if v.len() > 0 && v[0] == '/' {
        return true;
    }
    let mut at: usize = 0;
    while at < v.len() && v.len() - at >= 2
        invariant
            v@ == name@,
            at <= v.len(),
            forall|k: int| 0 <= k < at ==> !climbs_at(name@, k),
        decreases v.len() - at,
    {
        if v[at] == '.' && v[at + 1] == '.' && (at == 0 || v[at - 1] == '/') && (at + 2 == v.len()
            || v[at + 2] == '/') {
            assert(climbs_at(name@, at as int));
            return true;
        }
        at = at + 1;
    }
    false
}

/// An underscore for a slash; any other character as it is.
fn without_slash(c: char) -> (r: char)
    ensures
        r == if c == '/' {
            '_'
        } else {
            c
        },
{
    if c == '/' {
        '_'
    } else {
        c
    }
}

/// The file name with an underscore in place of each slash, where it could
/// lead out of a directory; any other name as it is.
pub fn contained_name(name: &str) -> (r: String)
    ensures
        r@ == contained(name@),
{
    if can_lead_out(name) {
        let r = text::with_each(name, without_slash);
        assert(r@ =~= contained(name@));
        r
    } else {
        name.to_string()
    }
}

// ---------------------------------------------------------------------------
// Window labels
// ---------------------------------------------------------------------------
/// The characters that a meeting's name keeps in a window label.
pub open spec fn plain(c: char) -> bool {
    ||| 'a' <= c <= 'z'
    ||| 'A' <= c <= 'Z'
    ||| '0' <= c <= '9'
    ||| c == '-'
    ||| c == '_'
}

/// The characters that the windowing system accepts in a label.
pub open spec fn label_character(c: char) -> bool {
    plain(c) || c == '/' || c == ':'
}

/// The text with an underscore in place of each character that is not plain.
pub open spec fn sanitised(s: Seq<char>) -> Seq<char> {
    s.map_values(|c: char| if plain(c) { c } else { '_' })
}

/// The name of the meeting that a path leads to.
pub open spec fn meeting_id(path: Seq<char>) -> Seq<char> {
    match text::last_segment(path) {
        Some(id) => id,
        None => "call"@,
    }
}

/// The label of the window for the call at a URL.
pub open spec fn meeting_label(url: UrlView) -> Seq<char> {
    "call-"@ + sanitised(meeting_id(url.path))
}

/// The label of a preview window, given its number.
pub open spec fn preview_label(seq: nat) -> Seq<char> {
    "doc-"@ + text::decimal(seq)
}

/// A plain character as it is, an underscore for any other.
fn plain_or_underscore(c: char) -> (r: char)
    ensures
        r == if plain(c) {
            c
        } else {
            '_'
        },
{
    if ('a' <= c && c <= 'z') || ('A' <= c && c <= 'Z') || ('0' <= c && c <= '9') || c == '-' || c
        == '_' {
        c
    } else {
        '_'
    }
}

/// The text with an underscore in place of each character that is not plain.
pub fn sanitise(s: &str) -> (r: String)
    ensures
        r@ == sanitised(s@),
{
    let r = text::with_each(s, plain_or_underscore);
    assert(r@ =~= sanitised(s@));
    r
}

/// The label of the window for the call at a URL.
pub fn meeting_window_label(url: &PageUrl) -> (label: String)
    ensures
        label@ == meeting_label(url@),
{
    let id = match text::last_piece(url.path.as_str()) {
        Some(id) => id,
        None => "call".to_string(),
    };
    let clean = sanitise(id.as_str());
    text::joined("call-", clean.as_str())
}

/// The label of the preview window with a given number.
pub fn preview_window_label(seq: usize) -> (label: String)
    ensures
        label@ == preview_label(seq as nat),
{
    let number = text::decimal_text(seq);
    text::joined("doc-", number.as_str())
}

// ---------------------------------------------------------------------------
// Laws
// ---------------------------------------------------------------------------
/// Every label of a call window consists of characters that the windowing
/// system accepts.
pub proof fn law_meeting_label_accepted(url: UrlView)
    ensures
        forall|i: int| 0 <= i < meeting_label(url).len() ==> label_character(
            #[trigger] meeting_label(url)[i],
        ),
{
    reveal_strlit("call-");
}

/// Every label of a preview window consists of characters that the windowing
/// system accepts.
pub proof fn law_preview_label_accepted(seq: nat)
    ensures
        forall|i: int| 0 <= i < preview_label(seq).len() ==> label_character(
            #[trigger] preview_label(seq)[i],
        ),
{
    reveal_strlit("doc-");
    lemma_decimal_plain(seq);
}

proof fn lemma_decimal_plain(n: nat)
    ensures
        forall|i: int| 0 <= i < text::decimal(n).len() ==> plain(#[trigger] text::decimal(n)[i]),
    decreases n,
{
    assert(text::decimal_digit(n % 10) as int == 48 + n % 10);
    if n >= 10 {
        let front = text::decimal(n / 10);
        lemma_decimal_plain(n / 10);
        assert forall|i: int| 0 <= i < text::decimal(n).len() implies plain(
            #[trigger] text::decimal(n)[i],
        ) by {
            if i < front.len() {
                assert(text::decimal(n)[i] == front[i]);
            }
        }
    }
}

/// URLs of one meeting get the same label, whatever else they differ in.
pub proof fn law_meeting_label_stable(a: UrlView, b: UrlView)
    requires
        meeting_id(a.path) == meeting_id(b.path),
    ensures
        meeting_label(a) == meeting_label(b),
{
}

/// The room of a meeting and the page where guests join it are of one meeting,
/// with or without a closing slash.
pub proof fn law_room_and_join_page_share_meeting(name: Seq<char>)
    requires
        name.len() > 0,
        !name.contains('/'),
    ensures
        meeting_id("/agency-os/meet/"@ + name) == name,
        meeting_id("/agency-os/join/"@ + name) == name,
        meeting_id(("/agency-os/meet/"@ + name).push('/')) == name,
        meeting_id(("/agency-os/join/"@ + name).push('/')) == name,
{
    reveal_strlit("/agency-os/meet/");
    reveal_strlit("/agency-os/join/");
    lemma_meeting_id("/agency-os/meet/"@, name);
    lemma_meeting_id("/agency-os/join/"@, name);
}

proof fn lemma_meeting_id(directory: Seq<char>, name: Seq<char>)
    requires
        directory.len() > 0,
        directory.last() == '/',
        name.len() > 0,
        !name.contains('/'),
    ensures
        meeting_id(directory + name) == name,
        meeting_id((directory + name).push('/')) == name,
{
    let path = directory + name;
    assert(name.contains(name.last()));
    assert(path.last() == name.last());
    lemma_after_last_slash(directory, name);
    assert(path.push('/').drop_last() =~= path);
    assert(text::without_trailing_slashes(path) == path);
    assert(text::without_trailing_slashes(path.push('/')) == text::without_trailing_slashes(
        path.push('/').drop_last(),
    ));
}

proof fn lemma_after_last_slash(directory: Seq<char>, name: Seq<char>)
    requires
        directory.len() > 0,
        directory.last() == '/',
        !name.contains('/'),
    ensures
        text::after_last_slash(directory + name) == name,
    decreases name.len(),
{
    let path = directory + name;
    if name.len() == 0 {
        assert(path =~= directory);
        assert(name =~= Seq::<char>::empty());
    } else {
        let front = name.drop_last();
        assert(name.contains(name.last()));
        assert forall|i: int| 0 <= i < front.len() implies front[i] != '/' by {
            assert(name.contains(name[i]));
        }
        lemma_after_last_slash(directory, front);
        assert(path.drop_last() =~= directory + front);
        assert(path.last() == name.last());
        assert(front.push(name.last()) =~= name);
    }
}

/// Meetings whose names are plain and differ have windows of their own.
pub proof fn law_meeting_labels_distinct(a: UrlView, b: UrlView)
    requires
        forall|i: int|
            0 <= i < meeting_id(a.path).len() ==> plain(#[trigger] meeting_id(a.path)[i]),
        forall|i: int|
            0 <= i < meeting_id(b.path).len() ==> plain(#[trigger] meeting_id(b.path)[i]),
        meeting_id(a.path) != meeting_id(b.path),
    ensures
        meeting_label(a) != meeting_label(b),
{
    let (x, y) = (meeting_id(a.path), meeting_id(b.path));
    assert(sanitised(x) =~= x);
    assert(sanitised(y) =~= y);
    if meeting_label(a) == meeting_label(b) {
        assert(x =~= meeting_label(a).skip("call-"@.len() as int));
        assert(y =~= meeting_label(b).skip("call-"@.len() as int));
    }
}

/// No two preview windows with different numbers share a label.
pub proof fn law_preview_labels_distinct(m: nat, n: nat)
    requires
        m != n,
    ensures
        preview_label(m) != preview_label(n),
{
    if preview_label(m) == preview_label(n) {
        assert(text::decimal(m) =~= preview_label(m).skip("doc-"@.len() as int));
        assert(text::decimal(n) =~= preview_label(n).skip("doc-"@.len() as int));
        text::law_decimal_distinct(m, n);
    }
}

/// The main window, the call windows and the preview windows never share a
/// label.
pub proof fn law_labels_disjoint(url: UrlView, seq: nat)
    ensures
        meeting_label(url) != preview_label(seq),
        meeting_label(url) != "main"@,
        preview_label(seq) != "main"@,
{
    reveal_strlit("call-");
    reveal_strlit("doc-");
    reveal_strlit("main");
    assert(meeting_label(url)[0] == 'c');
    assert(preview_label(seq)[0] == 'd');
}

/// Every suggested file name ends in `.pdf` and has something before it.
pub proof fn law_pdf_name(pairs: Seq<(Seq<char>, Seq<char>)>)
    ensures
        ".pdf"@.is_suffix_of(pdf_name(pairs)),
        pdf_name(pairs).len() > ".pdf"@.len(),
{
    reveal_strlit("document.pdf");
    reveal_strlit(".pdf");
    let name = pdf_name(pairs);
    assert(name.subrange(name.len() - 4, name.len() as int) =~= ".pdf"@);
}

/// A suggested file name that could lead out of a directory no longer does
/// once its slashes are replaced, and any other name stays as it is.
pub proof fn law_contained(name: Seq<char>)
    requires
        ".pdf"@.is_suffix_of(name),
    ensures
        !leads_out(contained(name)),
        !leads_out(name) ==> contained(name) == name,
{
    reveal_strlit(".pdf");
    if leads_out(name) {
        let used = contained(name);
        assert forall|at: int| !climbs_at(used, at) by {
            if climbs_at(used, at) {
                assert(at == 0);
                assert(used.len() == 2);
            }
        }
    }
}

/// A call is a page of the cockpit, whatever the server.
pub proof fn law_meeting_room_in_cockpit(url: UrlView, server: UrlView)
    requires
        meeting_room(url),
    ensures
        cockpit_page(url, server),
{
    reveal_strlit("/agency-os/meet/");
    reveal_strlit("/agency-os/join/");
    reveal_strlit("/agency-os/");
    let head = "/agency-os/"@;
    let whole = if "/agency-os/meet/"@.is_prefix_of(url.path) {
        "/agency-os/meet/"@
    } else {
        "/agency-os/join/"@
    };
    assert forall|i: int| 0 <= i < head.len() implies head[i] == url.path[i] by {
        assert(head[i] == whole[i]);
        assert(whole[i] == url.path.subrange(0, whole.len() as int)[i]);
    }
    assert(head =~= url.path.subrange(0, head.len() as int));
}

/// A PDF export has the server's PDF endpoint somewhere in its path, or a path
/// that ends in `.pdf`; nothing else of the URL counts.
pub proof fn law_pdf_download(url: UrlView)
    ensures
        pdf_download(url) <==> {
            ||| exists|before: Seq<char>, behind: Seq<char>|
                url.path == #[trigger] (before + "print_format.download_pdf"@ + behind)
            ||| exists|before: Seq<char>| url.path == #[trigger] (before + ".pdf"@)
        },
{
    let ending = ".pdf"@;
    text::law_occurs_in("print_format.download_pdf"@, url.path);
    if ending.is_suffix_of(url.path) {
        let before = url.path.take(url.path.len() - ending.len());
        assert(url.path =~= before + ending);
    }
    assert forall|before: Seq<char>| url.path == #[trigger] (before + ending) implies
        ending.is_suffix_of(url.path) by {
        assert(ending =~= url.path.subrange(before.len() as int, url.path.len() as int));
    }
}

/// A print preview has a path that begins with `/printview`, whatever follows;
/// a document is a preview or an export.
pub proof fn law_document(url: UrlView)
    ensures
        print_preview(url) <==> exists|rest: Seq<char>| url.path == #[trigger] ("/printview"@ + rest),
        document(url) <==> print_preview(url) || pdf_download(url),
{
    lemma_begins_with(url.path, "/printview"@);
}

/// Every page at `/agency-os/meet/` or `/agency-os/join/` and a name, whatever
/// the name is, is a call, and nothing else is.
pub proof fn law_meeting_room(url: UrlView)
    ensures
        meeting_room(url) <==> {
            ||| exists|name: Seq<char>| url.path == #[trigger] ("/agency-os/meet/"@ + name)
            ||| exists|name: Seq<char>| url.path == #[trigger] ("/agency-os/join/"@ + name)
        },
{
    lemma_begins_with(url.path, "/agency-os/meet/"@);
    lemma_begins_with(url.path, "/agency-os/join/"@);
}

proof fn lemma_begins_with(s: Seq<char>, head: Seq<char>)
    ensures
        head.is_prefix_of(s) <==> exists|rest: Seq<char>| s == #[trigger] (head + rest),
{
    if head.is_prefix_of(s) {
        let rest = s.skip(head.len() as int);
        assert(s =~= head + rest);
    }
    assert forall|rest: Seq<char>| s == #[trigger] (head + rest) implies head.is_prefix_of(s) by {
        assert(head =~= s.subrange(0, head.len() as int));
    }
}

/// The cockpit of a server is `/agency-os`, with or without a closing slash,
/// and everything below it; where the entry point of the server ends in
/// `/agency-os/`, it is also that entry point and everything below it.
pub proof fn law_cockpit_page(url: UrlView, server: UrlView)
    ensures
        cockpit_page(url, server) <==> {
            ||| url.path == "/agency-os"@
            ||| "/agency-os/"@.is_prefix_of(url.path)
            ||| "/agency-os/"@.is_suffix_of(server.path) && server.path.is_prefix_of(url.path)
            ||| "/agency-os/"@.is_suffix_of(server.path) && url.path == server.path.drop_last()
        },
{
    reveal_strlit("/agency-os");
    reveal_strlit("/agency-os/");
    let root = "/agency-os/"@;
    assert("/agency-os"@.push('/') =~= root);
    assert(root.drop_last() =~= "/agency-os"@);
    assert(url.path.push('/').drop_last() =~= url.path);
    if root.is_suffix_of(server.path) {
        assert(server.path.last() == root.last());
        assert(server.path.drop_last().push('/') =~= server.path);
    }
}

/// An export is offered under the value of the first parameter `name`, whole
/// and as it is, with `.pdf` behind it; where that is empty or missing, it is
/// offered as `document.pdf`.
pub proof fn law_suggested_name(pairs: Seq<(Seq<char>, Seq<char>)>)
    ensures
        forall|i: int|
            #![trigger pairs[i]]
            0 <= i < pairs.len() && pairs[i].0 == "name"@ && (forall|j: int|
                0 <= j < i ==> (#[trigger] pairs[j]).0 != "name"@) ==> pdf_name(pairs) == if pairs[i].1.len()
                > 0 {
                pairs[i].1 + ".pdf"@
            } else {
                "document.pdf"@
            },
        (forall|j: int| 0 <= j < pairs.len() ==> (#[trigger] pairs[j]).0 != "name"@) ==> pdf_name(
            pairs,
        ) == "document.pdf"@,
{
    page_url::law_first_value(pairs, "name"@);
}

/// Exports of different documents are offered under different names.
pub proof fn law_suggested_names_distinct(a: Seq<char>, b: Seq<char>)
    requires
        a.len() > 0 && b.len() > 0,
        pdf_name(seq![("name"@, a)]) == pdf_name(seq![("name"@, b)]),
    ensures
        a == b,
{
    law_suggested_name(seq![("name"@, a)]);
    law_suggested_name(seq![("name"@, b)]);
    let (first, second) = (seq![("name"@, a)], seq![("name"@, b)]);
    assert(first[0].0 == "name"@ && second[0].0 == "name"@);
    assert(pdf_name(first) == a + ".pdf"@);
    assert(pdf_name(second) == b + ".pdf"@);
    assert((a + ".pdf"@).len() == (b + ".pdf"@).len());
    assert(a =~= (a + ".pdf"@).take(a.len() as int));
    assert(b =~= (b + ".pdf"@).take(b.len() as int));
}

/// A file name that begins at the root, or one of whose parts between slashes
/// is `..`, has an underscore for each slash and is otherwise unchanged; every
/// other file name is unchanged altogether.
pub proof fn law_contained_characters(name: Seq<char>)
    ensures
        contained(name).len() == name.len(),
        ({
            let leaves = (name.len() > 0 && name[0] == '/') || exists|at: int|
                0 <= at <= name.len() - 2 && #[trigger] name[at] == '.' && name[at + 1] == '.' && (at
                    == 0 || name[at - 1] == '/') && (at == name.len() - 2 || name[at + 2] == '/');
            forall|i: int|
                0 <= i < name.len() ==> #[trigger] contained(name)[i] == if leaves && name[i]
                    == '/' {
                    '_'
                } else {
                    name[i]
                }
        }),
{
    if exists|at: int| climbs_at(name, at) {
        let at = choose|at: int| climbs_at(name, at);
        assert(name[at] == '.');
    }
    if exists|at: int|
        0 <= at <= name.len() - 2 && #[trigger] name[at] == '.' && name[at + 1] == '.' && (at == 0
            || name[at - 1] == '/') && (at == name.len() - 2 || name[at + 2] == '/') {
        let at = choose|at: int|
            0 <= at <= name.len() - 2 && #[trigger] name[at] == '.' && name[at + 1] == '.' && (at
                == 0 || name[at - 1] == '/') && (at == name.len() - 2 || name[at + 2] == '/');
        assert(climbs_at(name, at));
    }
}

/// In a label, ASCII letters, digits, hyphens and underscores stand for
/// themselves, and every other character becomes an underscore, one for one.
pub proof fn law_sanitised(s: Seq<char>)
    ensures
        sanitised(s).len() == s.len(),
        forall|i: int|
            0 <= i < s.len() ==> #[trigger] sanitised(s)[i] == if (97 <= s[i] as int <= 122) || (65
                <= s[i] as int <= 90) || (48 <= s[i] as int <= 57) || s[i] == '-' || s[i] == '_' {
                s[i]
            } else {
                '_'
            },
{
}

/// A meeting is named by the last piece of its path, whole and whatever leads
/// to it or closes it; the window of its call is labelled with that name. A
/// path of slashes alone names no meeting, and the label says just `call`.
pub proof fn law_meeting_label(
    url: UrlView,
    directory: Seq<char>,
    name: Seq<char>,
    slashes: Seq<char>,
)
    requires
        directory.len() > 0 ==> directory.last() == '/',
        name.len() > 0,
        forall|i: int| 0 <= i < name.len() ==> #[trigger] name[i] != '/',
        forall|i: int| 0 <= i < slashes.len() ==> #[trigger] slashes[i] == '/',
    ensures
        meeting_id(directory + name + slashes) == name,
        meeting_id(slashes) == "call"@,
        url.path == directory + name + slashes ==> meeting_label(url) == "call-"@ + sanitised(name),
        url.path == slashes ==> meeting_label(url) == "call-call"@,
{
    text::law_segment(directory, name, slashes);
    reveal_strlit("call");
    reveal_strlit("call-");
    reveal_strlit("call-call");
    assert(sanitised("call"@) =~= "call"@);
    assert("call-"@ + "call"@ =~= "call-call"@);
}

/// The windows of previews are labelled `doc-` and their number in decimal.
pub proof fn law_preview_label(n: nat, d: nat)
    requires
        d < 10,
    ensures
        preview_label(d) == "doc-"@.push((('0' as int) + d) as char),
        n > 0 ==> preview_label(10 * n + d) == preview_label(n).push((('0' as int) + d) as char),
{
    text::law_decimal_positional(n, d);
    let digit = (('0' as int) + d) as char;
    assert("doc-"@ + seq![digit] =~= "doc-"@.push(digit));
    assert("doc-"@ + text::decimal(n).push(digit) =~= ("doc-"@ + text::decimal(n)).push(digit));
}

} // verus!
