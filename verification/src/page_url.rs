//! The URL of a page, taken apart into the pieces that the rules read.
use vstd::prelude::*;

use crate::text;

verus! {

/// A URL: its whole text and its pieces, as the URL standard names them.
#[derive(Debug, PartialEq, Eq)]
pub struct PageUrl {
    /// The normalised text of the whole URL.
    pub text: String,
    /// The scheme, without the colon.
    pub scheme: String,
    /// The host, where the URL has one.
    pub host: Option<String>,
    /// The port: the one that the URL names, or that of its scheme.
    pub port: Option<u16>,
    /// The path, percent-encoded.
    pub path: String,
    /// The query, percent-encoded and without its question mark.
    pub query: Option<String>,
}

/// The texts that a [`PageUrl`] holds.
pub struct UrlView {
    pub text: Seq<char>,
    pub scheme: Seq<char>,
    pub host: Option<Seq<char>>,
    pub port: Option<u16>,
    pub path: Seq<char>,
    pub query: Option<Seq<char>>,
}

impl View for PageUrl {
    type V = UrlView;

    open spec fn view(&self) -> UrlView {
        UrlView {
            text: self.text@,
            scheme: self.scheme@,
            host: text::optional(self.host),
            port: self.port,
            path: self.path@,
            query: text::optional(self.query),
        }
    }
}

impl Clone for PageUrl {
    fn clone(&self) -> (copy: PageUrl)
        ensures
            copy@ == self@,
    {
        PageUrl {
            text: self.text.clone(),
            scheme: self.scheme.clone(),
            host: copy_of(&self.host),
            port: self.port,
            path: self.path.clone(),
            query: copy_of(&self.query),
        }
    }
}

/// A copy of an optional string.
pub fn copy_of(s: &Option<String>) -> (copy: Option<String>)
    ensures
        text::optional(copy) == text::optional(*s),
{
    match s {
        Some(t) => Some(t.clone()),
        None => None,
    }
}

// ---------------------------------------------------------------------------
// Origins
// ---------------------------------------------------------------------------
/// Where a page comes from.
#[derive(Debug, PartialEq, Eq)]
pub struct Origin {
    pub scheme: String,
    pub host: Option<String>,
    pub port: Option<u16>,
}

/// The contents of an [`Origin`].
pub struct OriginView {
    pub scheme: Seq<char>,
    pub host: Option<Seq<char>>,
    pub port: Option<u16>,
}

impl View for Origin {
    type V = OriginView;

    open spec fn view(&self) -> OriginView {
        OriginView { scheme: self.scheme@, host: text::optional(self.host), port: self.port }
    }
}

/// The two origins are the same: scheme, host and port agree, and there is a
/// host.
pub open spec fn same_origin(a: OriginView, b: OriginView) -> bool {
    &&& a.host is Some
    &&& a.scheme == b.scheme
    &&& a.host == b.host
    &&& a.port == b.port
}

impl UrlView {
    /// Where the page comes from.
    pub open spec fn origin(self) -> OriginView {
        OriginView { scheme: self.scheme, host: self.host, port: self.port }
    }
}

impl PageUrl {
    /// Where the page comes from.
    pub fn origin(&self) -> (origin: Origin)
        ensures
            origin@ == self@.origin(),
    {
        Origin { scheme: self.scheme.clone(), host: copy_of(&self.host), port: self.port }
    }

    /// Does the page come from the given origin?
    pub fn is_from(&self, origin: &Origin) -> (yes: bool)
        ensures
            yes == same_origin(origin@, self@.origin()),
    {
        match &origin.host {
            Some(host) => {
                text::same_text(origin.scheme.as_str(), self.scheme.as_str()) && self.has_host(
                    host.as_str(),
                ) && same_port(origin.port, self.port)
            },
            None => false,
        }
    }
}

/// Are the two ports the same?
fn same_port(a: Option<u16>, b: Option<u16>) -> (same: bool)
    ensures
        same == (a == b),
{
    match (a, b) {
        (Some(x), Some(y)) => x == y,
        (None, None) => true,
        _ => false,
    }
}

// ---------------------------------------------------------------------------
// Parsing
// ---------------------------------------------------------------------------
/// What `url::Url::parse` makes of a text: the pieces of the URL, or the
/// message of the error.
pub uninterp spec fn url_parts(input: Seq<char>) -> Result<UrlView, Seq<char>>;

/// The view of a parse.
pub open spec fn parse_view(parsed: Result<PageUrl, String>) -> Result<UrlView, Seq<char>> {
    match parsed {
        Ok(url) => Ok(url@),
        Err(message) => Err(message@),
    }
}

/// Parses an absolute URL with `url::Url::parse` and copies out what
/// `as_str`, `scheme`, `host_str`, `port_or_known_default`, `path` and `query`
/// give of it; an error is handed on as the message that it displays. All of
/// these depend on the input alone. What they are for a given input is the URL
/// standard's business and is not stated.
#[verifier::external_body]
fn parse_with_url_crate(input: &str) -> (parsed: Result<PageUrl, String>)
    ensures
        parse_view(parsed) == url_parts(input@),
{
    match url::Url::parse(input) {
        Ok(url) => Ok(
            PageUrl {
                text: url.as_str().to_string(),
                scheme: url.scheme().to_string(),
                host: url.host_str().map(|host| host.to_string()),
                port: url.port_or_known_default(),
                path: url.path().to_string(),
                query: url.query().map(|query| query.to_string()),
            },
        ),
        Err(error) => Err(error.to_string()),
    }
}

/// Parses an absolute URL.
pub fn parse_url(input: &str) -> (parsed: Result<PageUrl, String>)
    ensures
        parse_view(parsed) == url_parts(input@),
{
    parse_with_url_crate(input)
}

// ---------------------------------------------------------------------------
// Query parameters
// ---------------------------------------------------------------------------
/// The names and values that `url::form_urlencoded::parse` finds in a query,
/// in their order.
pub uninterp spec fn form_pairs(query: Seq<char>) -> Seq<(Seq<char>, Seq<char>)>;

/// The view of a list of names and values.
pub open spec fn pairs_view(pairs: Seq<(String, String)>) -> Seq<(Seq<char>, Seq<char>)> {
    pairs.map_values(|pair: (String, String)| (pair.0@, pair.1@))
}

/// Decodes a query with `url::form_urlencoded::parse`, which is what
/// `url::Url::query_pairs` does with the query of its URL. The pairs depend on
/// the query alone, and an empty query has none; the decoding itself is not
/// stated.
#[verifier::external_body]
fn decode_query(query: &str) -> (pairs: Vec<(String, String)>)
    ensures
        pairs_view(pairs@) == form_pairs(query@),
        query@.len() == 0 ==> pairs@.len() == 0,
{
    url::form_urlencoded::parse(query.as_bytes()).into_owned().collect()
}

/// The value of the first pair with the given name.
pub open spec fn first_value(pairs: Seq<(Seq<char>, Seq<char>)>, name: Seq<char>) -> Option<
    Seq<char>,
>
    decreases pairs.len(),
{
    if pairs.len() == 0 {
        None
    } else if pairs[0].0 == name {
        Some(pairs[0].1)
    } else {
        first_value(pairs.drop_first(), name)
    }
}

/// The value of the first pair with the given name.
pub fn find_value(pairs: &Vec<(String, String)>, name: &str) -> (value: Option<String>)
    ensures
        text::optional(value) == first_value(pairs_view(pairs@), name@),
{
    let ghost all = pairs_view(pairs@);
    let mut i: usize = 0;
    assert(all.skip(0) =~= all);
    while i < pairs.len()
        invariant
            i <= pairs@.len(),
            all == pairs_view(pairs@),
            first_value(all.skip(i as int), name@) == first_value(all, name@),
        decreases pairs.len() - i,
    {
        if text::same_text(pairs[i].0.as_str(), name) {
            return Some(pairs[i].1.clone());
        }
        assert(all.skip(i as int).drop_first() =~= all.skip(i + 1));
        i = i + 1;
    }
    None
}

impl UrlView {
    /// The names and values of the query; none where there is no query.
    pub open spec fn pairs(self) -> Seq<(Seq<char>, Seq<char>)> {
        match self.query {
            Some(query) => form_pairs(query),
            None => Seq::empty(),
        }
    }

    /// The value of the first query parameter with the given name.
    pub open spec fn parameter(self, name: Seq<char>) -> Option<Seq<char>> {
        first_value(self.pairs(), name)
    }
}

impl PageUrl {
    /// The names and values of the query, decoded.
    pub fn query_pairs(&self) -> (pairs: Vec<(String, String)>)
        ensures
            pairs_view(pairs@) == self@.pairs(),
    {
        match &self.query {
            Some(query) => decode_query(query.as_str()),
            None => {
                proof {
                    reveal_strlit("");
                }
                decode_query("")
            },
        }
    }

    /// The value of the first query parameter with the given name.
    pub fn parameter(&self, name: &str) -> (value: Option<String>)
        ensures
            text::optional(value) == self@.parameter(name@),
    {
        let pairs = self.query_pairs();
        find_value(&pairs, name)
    }

    /// Is the host of the URL the given one?
    pub fn has_host(&self, host: &str) -> (yes: bool)
        ensures
            yes == (self@.host == Some(host@)),
    {
        match &self.host {
            Some(own) => text::same_text(own.as_str(), host),
            None => false,
        }
    }
}

// ---------------------------------------------------------------------------
// Laws
// ---------------------------------------------------------------------------
/// The view of a URL holds every piece of it.
pub proof fn law_url_view(url: PageUrl, origin: Origin)
    ensures
        url@.text == url.text@ && url@.scheme == url.scheme@ && url@.path == url.path@,
        url@.port == url.port && origin@.port == origin.port && origin@.scheme == origin.scheme@,
        match url.host {
            Some(host) => url@.host == Some(host@),
            None => url@.host is None,
        },
        match url.query {
            Some(query) => url@.query == Some(query@),
            None => url@.query is None,
        },
        match origin.host {
            Some(host) => origin@.host == Some(host@),
            None => origin@.host is None,
        },
{
}

/// The view of a parse holds the URL, or the message.
pub proof fn law_parse_view(url: PageUrl, message: String)
    ensures
        parse_view(Ok(url)) == Ok::<UrlView, Seq<char>>(url@),
        parse_view(Err(message)) == Err::<UrlView, Seq<char>>(message@),
{
}

/// A page is of an origin that has a host exactly if its scheme, its host and
/// its port are those of the origin; nothing is of an origin without a host.
pub proof fn law_same_origin(own: OriginView, url: UrlView)
    ensures
        same_origin(own, url.origin()) <==> {
            &&& own.host is Some
            &&& url.host == own.host
            &&& url.scheme == own.scheme
            &&& url.port == own.port
        },
{
}

/// The value of a parameter is that of the first pair with its name, whatever
/// the value is and whatever follows; without such a pair there is none.
pub proof fn law_first_value(pairs: Seq<(Seq<char>, Seq<char>)>, name: Seq<char>)
    ensures
        forall|i: int|
            #![trigger pairs[i]]
            0 <= i < pairs.len() && pairs[i].0 == name && (forall|j: int|
                0 <= j < i ==> (#[trigger] pairs[j]).0 != name) ==> first_value(pairs, name) == Some(
                pairs[i].1,
            ),
        (forall|j: int| 0 <= j < pairs.len() ==> (#[trigger] pairs[j]).0 != name)
            ==> first_value(pairs, name) is None,
    decreases pairs.len(),
{
    if pairs.len() > 0 && pairs[0].0 != name {
        let rest = pairs.drop_first();
        law_first_value(rest, name);
        assert forall|i: int|
            #![trigger pairs[i]]
            0 <= i < pairs.len() && pairs[i].0 == name && (forall|j: int|
                0 <= j < i ==> (#[trigger] pairs[j]).0 != name) implies first_value(pairs, name)
            == Some(pairs[i].1) by {
            assert(rest[i - 1] == pairs[i]);
            assert forall|j: int| 0 <= j < i - 1 implies (#[trigger] rest[j]).0 != name by {
                assert(rest[j] == pairs[j + 1]);
            }
        }
        if forall|j: int| 0 <= j < pairs.len() ==> (#[trigger] pairs[j]).0 != name {
            assert forall|j: int| 0 <= j < rest.len() implies (#[trigger] rest[j]).0 != name by {
                assert(rest[j] == pairs[j + 1]);
            }
        }
    } else if pairs.len() > 0 {
        assert forall|i: int|
            #![trigger pairs[i]]
            0 <= i < pairs.len() && pairs[i].0 == name && (forall|j: int|
                0 <= j < i ==> (#[trigger] pairs[j]).0 != name) implies first_value(pairs, name)
            == Some(pairs[i].1) by {
            if i > 0 {
                assert(pairs[0].0 != name);
            }
        }
    }
}

/// The parameters of a URL are the pairs that its query decodes to; a URL
/// without a query has none.
pub proof fn law_parameter(url: UrlView, name: Seq<char>, i: int)
    ensures
        match url.query {
            Some(query) => {
                let pairs = form_pairs(query);
                &&& url.pairs() == pairs
                &&& 0 <= i < pairs.len() && pairs[i].0 == name && (forall|j: int|
                    0 <= j < i ==> (#[trigger] pairs[j]).0 != name) ==> url.parameter(name) == Some(
                    pairs[i].1,
                )
                &&& (forall|j: int| 0 <= j < pairs.len() ==> (#[trigger] pairs[j]).0 != name)
                    ==> url.parameter(name) is None
            },
            None => url.pairs().len() == 0 && url.parameter(name) is None,
        },
{
    law_first_value(url.pairs(), name);
}

/// The view of a list of pairs holds the two texts of each pair, in its place.
pub proof fn law_pairs_view(pairs: Seq<(String, String)>)
    ensures
        pairs_view(pairs).len() == pairs.len(),
        forall|i: int|
            0 <= i < pairs.len() ==> #[trigger] pairs_view(pairs)[i] == (pairs[i].0@, pairs[i].1@),
{
}

} // verus!
