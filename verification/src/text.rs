//! Text as sequences of characters: searching, trimming, segments, decimals.
use vstd::prelude::*;

verus! {

/// `String::push` appends one character to the end of the string.
pub assume_specification[ String::push ](s: &mut String, c: char)
    ensures
        final(s)@ == old(s)@.push(c),
;

// ---------------------------------------------------------------------------
// Models
// ---------------------------------------------------------------------------
/// The text of an optional string.
pub open spec fn optional(s: Option<String>) -> Option<Seq<char>> {
    match s {
        Some(t) => Some(t@),
        None => None,
    }
}

/// The texts of a list of strings.
pub open spec fn texts(list: Seq<String>) -> Seq<Seq<char>> {
    list.map_values(|s: String| s@)
}

/// `needle` stands in `hay`, starting at index `at`.
pub open spec fn stands_at(needle: Seq<char>, hay: Seq<char>, at: int) -> bool {
    &&& 0 <= at <= hay.len() - needle.len()
    &&& hay.subrange(at, at + needle.len()) == needle
}

/// `needle` stands somewhere in `hay`.
pub open spec fn occurs_in(needle: Seq<char>, hay: Seq<char>) -> bool {
    exists|at: int| stands_at(needle, hay, at)
}

/// The characters with the Unicode property `White_Space`.
pub open spec fn white_space(c: char) -> bool {
    ||| '\u{9}' <= c <= '\u{d}'
    ||| c == '\u{20}'
    ||| c == '\u{85}'
    ||| c == '\u{a0}'
    ||| c == '\u{1680}'
    ||| '\u{2000}' <= c <= '\u{200a}'
    ||| c == '\u{2028}'
    ||| c == '\u{2029}'
    ||| c == '\u{202f}'
    ||| c == '\u{205f}'
    ||| c == '\u{3000}'
}

/// `s` without the white space at its start.
pub open spec fn without_leading_space(s: Seq<char>) -> Seq<char>
    decreases s.len(),
{
    if s.len() > 0 && white_space(s[0]) {
        without_leading_space(s.drop_first())
    } else {
        s
    }
}

/// `s` without the white space at its end.
pub open spec fn without_trailing_space(s: Seq<char>) -> Seq<char>
    decreases s.len(),
{
    if s.len() > 0 && white_space(s.last()) {
        without_trailing_space(s.drop_last())
    } else {
        s
    }
}

/// `s` without the white space around it.
pub open spec fn trimmed(s: Seq<char>) -> Seq<char> {
    without_trailing_space(without_leading_space(s))
}

/// `s` without the slashes at its end.
pub open spec fn without_trailing_slashes(s: Seq<char>) -> Seq<char>
    decreases s.len(),
{
    if s.len() > 0 && s.last() == '/' {
        without_trailing_slashes(s.drop_last())
    } else {
        s
    }
}

/// What follows the last slash of `s`; all of `s` where it has none.
pub open spec fn after_last_slash(s: Seq<char>) -> Seq<char>
    decreases s.len(),
{
    if s.len() == 0 || s.last() == '/' {
        Seq::empty()
    } else {
        after_last_slash(s.drop_last()).push(s.last())
    }
}

/// The last non-empty piece of `s` between slashes, if there is one.
pub open spec fn last_segment(s: Seq<char>) -> Option<Seq<char>> {
    let body = without_trailing_slashes(s);
    if body.len() == 0 {
        None
    } else {
        Some(after_last_slash(body))
    }
}

/// The decimal digit of a number below ten.
pub open spec fn decimal_digit(d: nat) -> char {
    (48 + d) as char
}

/// A number in decimal, without leading zeros.
pub open spec fn decimal(n: nat) -> Seq<char>
    decreases n,
{
    if n < 10 {
        seq![decimal_digit(n)]
    } else {
        decimal(n / 10).push(decimal_digit(n % 10))
    }
}

// ---------------------------------------------------------------------------
// Characters
// ---------------------------------------------------------------------------
/// The characters of a string.
pub fn characters(s: &str) -> (v: Vec<char>)
    ensures
        v@ == s@,
{
    let mut v: Vec<char> = Vec::new();
    for c in it: s.chars()
        invariant
            it.seq() == s@,
            v@ == s@.take(it.index() as int),
    {
        v.push(c);
    }
    v
}

/// The string made of a run of characters.
fn text_of(v: &Vec<char>, from: usize, to: usize) -> (s: String)
    requires
        from <= to <= v@.len(),
    ensures
        s@ == v@.subrange(from as int, to as int),
{
    let mut s = String::new();
    let mut i: usize = from;
    while i < to
        invariant
            from <= i <= to <= v@.len(),
            s@ == v@.subrange(from as int, i as int),
        decreases to - i,
    {
        s.push(v[i]);
        i = i + 1;
    }
    s
}

/// Do `needle`'s characters stand in `hay` from index `at` on?
fn stands(needle: &Vec<char>, hay: &Vec<char>, at: usize) -> (found: bool)
    requires
        at + needle@.len() <= hay@.len(),
    ensures
        found == stands_at(needle@, hay@, at as int),
{
    let mut i: usize = 0;
    while i < needle.len()
        invariant
            i <= needle@.len(),
            at + needle@.len() <= hay.len(),
            forall|k: int| 0 <= k < i ==> needle@[k] == hay@[at + k],
        decreases needle.len() - i,
    {
        if needle[i] != hay[at + i] {
            proof {
                let part = hay@.subrange(at as int, at + needle@.len());
                assert(part[i as int] == hay@[at + i]);
            }
            return false;
        }
        i = i + 1;
    }
    assert(hay@.subrange(at as int, at + needle@.len()) =~= needle@);
    true
}

/// Are the two texts the same?
pub fn same_text(a: &str, b: &str) -> (same: bool)
    ensures
        same == (a@ == b@),
{
    let left = characters(a);
    let right = characters(b);
    if left.len() != right.len() {
        return false;
    }
    let same = stands(&left, &right, 0);
    assert(right@.subrange(0, right@.len() as int) =~= right@);
    same
}

/// Is the text among those of a list?
pub fn is_listed(list: &Vec<String>, s: &str) -> (yes: bool)
    ensures
        yes == texts(list@).contains(s@),
{
    let mut i: usize = 0;
    while i < list.len()
        invariant
            i <= list@.len(),
            forall|k: int| 0 <= k < i ==> texts(list@)[k] != s@,
        decreases list.len() - i,
    {
        assert(texts(list@)[i as int] == list@[i as int]@);
        if same_text(list[i].as_str(), s) {
            return true;
        }
        i = i + 1;
    }
    assert(!texts(list@).contains(s@));
    false
}

/// Does `s` begin with `prefix`?
pub fn starts_with(s: &str, prefix: &str) -> (yes: bool)
    ensures
        yes == prefix@.is_prefix_of(s@),
{
    let hay = characters(s);
    let needle = characters(prefix);
    if needle.len() > hay.len() {
        return false;
    }
    stands(&needle, &hay, 0)
}

/// Does `s` end with `suffix`?
pub fn ends_with(s: &str, suffix: &str) -> (yes: bool)
    ensures
        yes == suffix@.is_suffix_of(s@),
{
    let hay = characters(s);
    let needle = characters(suffix);
    if needle.len() > hay.len() {
        return false;
    }
    stands(&needle, &hay, hay.len() - needle.len())
}

/// Does `needle` stand somewhere in `s`?
pub fn contains(s: &str, needle: &str) -> (yes: bool)
    ensures
        yes == occurs_in(needle@, s@),
{
    let hay = characters(s);
    let wanted = characters(needle);
    if wanted.len() > hay.len() {
        return false;
    }
    let last: usize = hay.len() - wanted.len();
    let mut at: usize = 0;
    loop
        invariant
            hay@ == s@,
            wanted@ == needle@,
            last == hay@.len() - wanted@.len(),
            at <= last,
            forall|k: int| 0 <= k < at ==> !stands_at(wanted@, hay@, k),
        decreases last - at,
    {
        if stands(&wanted, &hay, at) {
            return true;
        }
        if at == last {
            assert forall|k: int| !stands_at(needle@, s@, k) by {
                if stands_at(needle@, s@, k) {
                    assert(k <= last);
                }
            }
            return false;
        }
        at = at + 1;
    }
}

// ---------------------------------------------------------------------------
// Trimming
// ---------------------------------------------------------------------------
/// Has the character the Unicode property `White_Space`?
pub fn is_white_space(c: char) -> (yes: bool)
    ensures
        yes == white_space(c),
{
    ('\u{9}' <= c && c <= '\u{d}') || c == '\u{20}' || c == '\u{85}' || c == '\u{a0}' || c
        == '\u{1680}' || ('\u{2000}' <= c && c <= '\u{200a}') || c == '\u{2028}' || c == '\u{2029}'
        || c == '\u{202f}' || c == '\u{205f}' || c == '\u{3000}'
}

/// The text without the white space around it.
pub fn trim(s: &str) -> (r: String)
    ensures
        r@ == trimmed(s@),
{
    let v = characters(s);
    let mut from: usize = 0;
    assert(v@.skip(0) =~= v@);
    while from < v.len() && is_white_space(v[from])
        invariant
            from <= v@.len(),
            without_leading_space(v@.skip(from as int)) == without_leading_space(v@),
        decreases v.len() - from,
    {
        assert(v@.skip(from as int).drop_first() =~= v@.skip(from + 1));
        from = from + 1;
    }
    let ghost rest = v@.skip(from as int);
    assert(without_leading_space(rest) == rest);
    let mut to: usize = v.len();
    assert(v@.subrange(from as int, to as int) =~= rest);
    while from < to && is_white_space(v[to - 1])
        invariant
            from <= to <= v@.len(),
            without_trailing_space(v@.subrange(from as int, to as int)) == without_trailing_space(
                rest,
            ),
        decreases to,
    {
        assert(v@.subrange(from as int, to as int).drop_last() =~= v@.subrange(
            from as int,
            to - 1,
        ));
        to = to - 1;
    }
    text_of(&v, from, to)
}

/// The number of characters of `v` that stand before its trailing slashes.
fn body_length(v: &Vec<char>) -> (n: usize)
    ensures
        n <= v@.len(),
        v@.take(n as int) == without_trailing_slashes(v@),
        n > 0 ==> v@[n - 1] != '/',
{
    let mut n: usize = v.len();
    assert(v@.take(n as int) =~= v@);
    while n > 0 && v[n - 1] == '/'
        invariant
            n <= v@.len(),
            without_trailing_slashes(v@.take(n as int)) == without_trailing_slashes(v@),
        decreases n,
    {
        assert(v@.take(n as int).drop_last() =~= v@.take(n - 1));
        n = n - 1;
    }
    n
}

/// The text without the slashes at its end.
pub fn trim_end_slashes(s: &str) -> (r: String)
    ensures
        r@ == without_trailing_slashes(s@),
{
    let v = characters(s);
    let n = body_length(&v);
    assert(v@.subrange(0, n as int) =~= v@.take(n as int));
    text_of(&v, 0, n)
}

/// The last non-empty piece of the text between slashes.
pub fn last_piece(s: &str) -> (r: Option<String>)
    ensures
        optional(r) == last_segment(s@),
{
    let v = characters(s);
    let to = body_length(&v);
    let ghost body = v@.take(to as int);
    if to == 0 {
        return None;
    }
    let mut from: usize = to;
    assert(body.take(to as int) =~= body);
    assert(v@.subrange(to as int, to as int) =~= Seq::<char>::empty());
    assert(after_last_slash(body) =~= after_last_slash(body) + Seq::<char>::empty());
    while from > 0 && v[from - 1] != '/'
        invariant
            from <= to <= v@.len(),
            body == v@.take(to as int),
            after_last_slash(body) == after_last_slash(body.take(from as int)) + v@.subrange(
                from as int,
                to as int,
            ),
        decreases from,
    {
        assert(body.take(from as int).drop_last() =~= body.take(from - 1));
        assert(seq![v@[from - 1]] + v@.subrange(from as int, to as int) =~= v@.subrange(
            from - 1,
            to as int,
        ));
        assert(after_last_slash(body.take(from - 1)).push(v@[from - 1]) + v@.subrange(
            from as int,
            to as int,
        ) =~= after_last_slash(body.take(from - 1)) + v@.subrange(from - 1, to as int));
        from = from - 1;
    }
    assert(after_last_slash(body.take(from as int)) =~= Seq::<char>::empty());
    assert(after_last_slash(body) =~= v@.subrange(from as int, to as int));
    Some(text_of(&v, from, to))
}

// ---------------------------------------------------------------------------
// Joining, replacing and decimals
// ---------------------------------------------------------------------------
/// Two texts, one after the other.
pub fn joined(a: &str, b: &str) -> (r: String)
    ensures
        r@ == a@ + b@,
{
    let mut r = a.to_string();
    r.append(b);
    r
}

/// The text with `f` applied to each of its characters.
pub fn with_each<F: Fn(char) -> char>(s: &str, f: F) -> (r: String)
    requires
        forall|c: char| call_requires(f, (c,)),
    ensures
        r@.len() == s@.len(),
        forall|i: int| 0 <= i < s@.len() ==> call_ensures(f, (s@[i],), #[trigger] r@[i]),
{
    let v = characters(s);
    let mut r = String::new();
    let mut i: usize = 0;
    while i < v.len()
        invariant
            i <= v@.len(),
            r@.len() == i,
            forall|c: char| call_requires(f, (c,)),
            forall|k: int| 0 <= k < i ==> call_ensures(f, (v@[k],), #[trigger] r@[k]),
        decreases v.len() - i,
    {
        r.push(f(v[i]));
        i = i + 1;
    }
    r
}

/// A number in decimal, without leading zeros.
pub fn decimal_text(n: usize) -> (s: String)
    ensures
        s@ == decimal(n as nat),
    decreases n,
{
    if n < 10 {
        let mut s = String::new();
        s.push((48u8 + n as u8) as char);
        s
    } else {
        let mut s = decimal_text(n / 10);
        s.push((48u8 + (n % 10) as u8) as char);
        s
    }
}

// ---------------------------------------------------------------------------
// Laws
// ---------------------------------------------------------------------------
/// Removing leading white space leaves an end of the text that does not begin
/// with white space, and takes away white space only.
pub proof fn law_without_leading_space(s: Seq<char>)
    ensures
        without_leading_space(s).is_suffix_of(s),
        without_leading_space(s).len() > 0 ==> !white_space(without_leading_space(s)[0]),
        forall|i: int|
            0 <= i < s.len() - without_leading_space(s).len() ==> white_space(#[trigger] s[i]),
    decreases s.len(),
{
    if s.len() > 0 && white_space(s[0]) {
        let rest = s.drop_first();
        law_without_leading_space(rest);
        assert forall|i: int| 0 <= i < s.len() - without_leading_space(s).len() implies white_space(
            #[trigger] s[i],
        ) by {
            if i > 0 {
                assert(rest[i - 1] == s[i]);
            }
        }
    }
}

/// Removing trailing white space leaves a beginning of the text that does not
/// end in white space, and takes away white space only.
pub proof fn law_without_trailing_space(s: Seq<char>)
    ensures
        without_trailing_space(s).is_prefix_of(s),
        without_trailing_space(s).len() > 0 ==> !white_space(without_trailing_space(s).last()),
        forall|i: int|
            without_trailing_space(s).len() <= i < s.len() ==> white_space(#[trigger] s[i]),
    decreases s.len(),
{
    if s.len() > 0 && white_space(s.last()) {
        let front = s.drop_last();
        law_without_trailing_space(front);
        assert forall|i: int| without_trailing_space(s).len() <= i < s.len() implies white_space(
            #[trigger] s[i],
        ) by {
            if i < s.len() - 1 {
                assert(front[i] == s[i]);
            }
        }
    }
}

/// Trimming a trimmed text changes nothing.
pub proof fn law_trimmed_twice(s: Seq<char>)
    ensures
        trimmed(trimmed(s)) == trimmed(s),
{
    law_without_leading_space(s);
    law_without_trailing_space(without_leading_space(s));
}

/// Trimming takes away white space at the two ends of a text and nothing else:
/// what is left is one run of its characters, with white space before and
/// behind it, that neither begins nor ends with white space.
pub proof fn law_trimmed(s: Seq<char>) -> (bounds: (int, int))
    ensures
        0 <= bounds.0 <= bounds.1 <= s.len(),
        trimmed(s) == s.subrange(bounds.0, bounds.1),
        forall|i: int| 0 <= i < bounds.0 ==> white_space(#[trigger] s[i]),
        forall|i: int| bounds.1 <= i < s.len() ==> white_space(#[trigger] s[i]),
        trimmed(s).len() > 0 ==> !white_space(trimmed(s)[0]) && !white_space(trimmed(s).last()),
{
    let led = without_leading_space(s);
    law_without_leading_space(s);
    law_without_trailing_space(led);
    let from = s.len() - led.len();
    let to = from + trimmed(s).len();
    assert(trimmed(s) =~= s.subrange(from, to));
    assert forall|i: int| to <= i < s.len() implies white_space(#[trigger] s[i]) by {
        assert(led[i - from] == s[i]);
    }
    (from, to)
}

/// Removing trailing slashes leaves a beginning of the text that does not end
/// in a slash, and takes away slashes only.
pub proof fn law_without_trailing_slashes(s: Seq<char>)
    ensures
        without_trailing_slashes(s).is_prefix_of(s),
        without_trailing_slashes(s).len() > 0 ==> without_trailing_slashes(s).last() != '/',
        forall|i: int| without_trailing_slashes(s).len() <= i < s.len() ==> #[trigger] s[i] == '/',
    decreases s.len(),
{
    if s.len() > 0 && s.last() == '/' {
        let front = s.drop_last();
        law_without_trailing_slashes(front);
        assert forall|i: int| without_trailing_slashes(s).len() <= i < s.len() implies #[trigger] s[i]
            == '/' by {
            if i < s.len() - 1 {
                assert(front[i] == s[i]);
            }
        }
    }
}

/// What follows the last slash is the longest end of the text without a slash.
pub proof fn law_after_last_slash(s: Seq<char>)
    ensures
        after_last_slash(s).is_suffix_of(s),
        !after_last_slash(s).contains('/'),
        after_last_slash(s).len() < s.len() ==> s[s.len() - after_last_slash(s).len() - 1] == '/',
    decreases s.len(),
{
    if s.len() > 0 && s.last() != '/' {
        let front = s.drop_last();
        law_after_last_slash(front);
        let tail = after_last_slash(s);
        assert forall|i: int| 0 <= i < tail.len() implies tail[i] != '/' by {
            if i < tail.len() - 1 {
                assert(after_last_slash(front).contains(after_last_slash(front)[i]));
            }
        }
    }
}

/// The last segment of a text is not empty and holds no slash; only slashes
/// follow it, and it begins the text or follows a slash. A text without a last
/// segment holds nothing but slashes.
pub proof fn law_last_segment(s: Seq<char>)
    ensures
        match last_segment(s) {
            Some(segment) => {
                let end = without_trailing_slashes(s).len();
                let start = end - segment.len();
                &&& segment.len() > 0
                &&& !segment.contains('/')
                &&& 0 <= start
                &&& segment == s.subrange(start, end as int)
                &&& start > 0 ==> s[start - 1] == '/'
                &&& forall|i: int| end <= i < s.len() ==> #[trigger] s[i] == '/'
            },
            None => forall|i: int| 0 <= i < s.len() ==> #[trigger] s[i] == '/',
        },
{
    let body = without_trailing_slashes(s);
    law_without_trailing_slashes(s);
    law_after_last_slash(body);
    if body.len() > 0 {
        assert(after_last_slash(body).len() > 0);
        let start = body.len() - after_last_slash(body).len();
        assert(after_last_slash(body) =~= s.subrange(start, body.len() as int));
        if start > 0 {
            assert(body[start - 1] == s[start - 1]);
        }
    }
}

/// Two numbers with the same decimal text are the same number.
pub proof fn law_decimal_distinct(m: nat, n: nat)
    requires
        decimal(m) == decimal(n),
    ensures
        m == n,
    decreases m + n,
{
    lemma_decimal_last(m);
    lemma_decimal_last(n);
    assert(m % 10 == n % 10) by {
        assert(decimal_digit(m % 10) as int == 48 + m % 10);
        assert(decimal_digit(n % 10) as int == 48 + n % 10);
    }
    if m >= 10 && n >= 10 {
        law_decimal_distinct(m / 10, n / 10);
    }
}

proof fn lemma_decimal_last(n: nat)
    ensures
        decimal(n).len() > 0,
        decimal(n).last() == decimal_digit(n % 10),
        n < 10 <==> decimal(n).len() == 1,
        n >= 10 ==> decimal(n).drop_last() == decimal(n / 10),
    decreases n,
{
    if n >= 10 {
        lemma_decimal_last(n / 10);
        assert(decimal(n).drop_last() =~= decimal(n / 10));
    }
}

/// A text occurs in another exactly if the other is made of it with something,
/// or nothing, before and behind it.
pub proof fn law_occurs_in(needle: Seq<char>, hay: Seq<char>)
    ensures
        occurs_in(needle, hay) <==> exists|before: Seq<char>, behind: Seq<char>|
            hay == #[trigger] (before + needle + behind),
{
    if occurs_in(needle, hay) {
        let at = choose|at: int| stands_at(needle, hay, at);
        let before = hay.take(at);
        let behind = hay.skip(at + needle.len());
        let found = hay.subrange(at, at + needle.len());
        assert forall|i: int| 0 <= i < needle.len() implies #[trigger] needle[i] == hay[at + i] by {
            assert(found[i] == hay[at + i]);
        }
        assert(hay =~= before + needle + behind);
    }
    assert forall|before: Seq<char>, behind: Seq<char>|
        hay == #[trigger] (before + needle + behind) implies occurs_in(needle, hay) by {
        let at = before.len() as int;
        assert(hay.subrange(at, at + needle.len()) =~= needle);
        assert(stands_at(needle, hay, at));
    }
}

/// White space are the tab, the line breaks, the space and the other
/// characters that Unicode lists, by their code points.
pub proof fn law_white_space(c: char)
    ensures
        white_space(c) <==> {
            let code = c as int;
            ||| 9 <= code <= 13
            ||| code == 32 || code == 133 || code == 160 || code == 5760
            ||| 8192 <= code <= 8202
            ||| code == 8232 || code == 8233 || code == 8239 || code == 8287 || code == 12288
        },
{
}

/// Whatever stands between white space and neither begins nor ends with it is
/// what trimming leaves, character by character.
pub proof fn law_trimmed_core(left: Seq<char>, core: Seq<char>, right: Seq<char>)
    requires
        forall|i: int| 0 <= i < left.len() ==> white_space(#[trigger] left[i]),
        forall|i: int| 0 <= i < right.len() ==> white_space(#[trigger] right[i]),
        core.len() > 0 ==> !white_space(core[0]) && !white_space(core.last()),
    ensures
        trimmed(left + core + right) == core,
{
    let s = left + core + right;
    let (from, to) = law_trimmed(s);
    if core.len() == 0 {
        if from < to {
            let c = trimmed(s)[0];
            assert(c == s[from]);
            if from < left.len() {
                assert(s[from] == left[from]);
            } else {
                assert(s[from] == right[from - left.len()]);
            }
        }
        assert(trimmed(s) =~= core);
    } else {
        let (first, behind) = (left.len() as int, (left.len() + core.len()) as int);
        assert(s[first] == core[0]);
        assert(s[behind - 1] == core.last());
        assert(from <= first && behind <= to);
        assert(trimmed(s)[0] == s[from]);
        assert(trimmed(s).last() == s[to - 1]);
        if from < first {
            assert(s[from] == left[from]);
        }
        if behind < to {
            assert(s[to - 1] == right[to - 1 - behind]);
        }
        assert(trimmed(s) =~= core);
    }
}

/// Whatever slashes follow a text that does not end in one, taking away the
/// trailing slashes leaves that text.
pub proof fn law_trunk(trunk: Seq<char>, slashes: Seq<char>)
    requires
        trunk.len() > 0 ==> trunk.last() != '/',
        forall|i: int| 0 <= i < slashes.len() ==> #[trigger] slashes[i] == '/',
    ensures
        without_trailing_slashes(trunk + slashes) == trunk,
{
    let s = trunk + slashes;
    let r = without_trailing_slashes(s);
    law_without_trailing_slashes(s);
    if r.len() > trunk.len() {
        assert(r.last() == s[r.len() - 1]);
        assert(s[r.len() - 1] == slashes[r.len() - 1 - trunk.len()]);
    } else if r.len() < trunk.len() {
        assert(s[trunk.len() - 1] == trunk.last());
    }
    assert(r =~= trunk);
}

/// A piece without slashes is the last segment of every path that it ends,
/// whatever directories lead to it and whatever slashes follow it; a path of
/// slashes alone has none.
pub proof fn law_segment(directory: Seq<char>, piece: Seq<char>, slashes: Seq<char>)
    requires
        directory.len() > 0 ==> directory.last() == '/',
        piece.len() > 0,
        forall|i: int| 0 <= i < piece.len() ==> #[trigger] piece[i] != '/',
        forall|i: int| 0 <= i < slashes.len() ==> #[trigger] slashes[i] == '/',
    ensures
        last_segment(directory + piece + slashes) == Some(piece),
        last_segment(slashes) is None,
{
    let body = directory + piece;
    assert(body.last() == piece.last());
    law_trunk(body, slashes);
    law_after_last_slash(body);
    let tail = after_last_slash(body);
    if tail.len() > piece.len() {
        let at = tail.len() - piece.len() - 1;
        assert(tail[at] == body[directory.len() - 1]);
        assert(tail.contains(tail[at]));
    } else if tail.len() < piece.len() {
        let at = piece.len() - tail.len() - 1;
        assert(body[body.len() - tail.len() - 1] == piece[at]);
    }
    assert(tail =~= piece);
    law_trunk(Seq::empty(), slashes);
    assert(Seq::<char>::empty() + slashes =~= slashes);
}

/// Decimals are positional: a number below ten is one digit, and a digit more
/// at the end makes ten times the number and the digit.
pub proof fn law_decimal_positional(n: nat, d: nat)
    requires
        d < 10,
    ensures
        decimal(d) == seq![(('0' as int) + d) as char],
        n > 0 ==> decimal(10 * n + d) == decimal(n).push((('0' as int) + d) as char),
{
    assert((10 * n + d) / 10 == n && (10 * n + d) % 10 == d);
}

/// A list of texts holds the text of each string of the list, in its place.
pub proof fn law_texts(list: Seq<String>, s: Option<String>)
    ensures
        texts(list).len() == list.len(),
        forall|i: int| 0 <= i < list.len() ==> #[trigger] texts(list)[i] == list[i]@,
        optional(s) is Some <==> s is Some,
        s is Some ==> optional(s)->0 == s->0@,
{
}

} // verus!
