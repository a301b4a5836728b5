//! The session cookie: how it is written into a `Set-Cookie` header and how
//! it is found again in a `Cookie` header.

use vstd::prelude::*;
use vstd::utf8::is_ascii_chars;

verus! {

/// Which requests a browser may attach a cookie to.
#[derive(Clone, Copy, Debug, PartialEq, Eq)]
pub enum SameSite {
    /// Only requests that start on the site itself.
    Strict,
    /// Also top-level navigations from elsewhere.
    Lax,
    /// Any request.
    CrossSite,
}

/// A cookie to be set, with the attributes this library uses.
#[derive(Debug)]
pub struct SessionCookie {
    pub name: String,
    pub value: String,
    pub http_only: bool,
    pub secure: bool,
    pub same_site: SameSite,
    pub path: String,
}

/// `SessionCookie` as mathematical values.
pub struct SessionCookieView {
    pub name: Seq<char>,
    pub value: Seq<char>,
    pub http_only: bool,
    pub secure: bool,
    pub same_site: SameSite,
    pub path: Seq<char>,
}

impl View for SessionCookie {
    type V = SessionCookieView;

    open spec fn view(&self) -> SessionCookieView {
        SessionCookieView {
            name: self.name@,
            value: self.value@,
            http_only: self.http_only,
            secure: self.secure,
            same_site: self.same_site,
            path: self.path@,
        }
    }
}

/// The word that stands for a same-site rule in a header.
pub open spec fn same_site_word(rule: SameSite) -> Seq<char> {
    match rule {
        SameSite::Strict => "Strict"@,
        SameSite::Lax => "Lax"@,
        SameSite::CrossSite => "None"@,
    }
}

/// The `Set-Cookie` header value of a cookie: the pair, then the attributes
/// in the order `HttpOnly`, `SameSite`, `Secure`, `Path`. Nothing is escaped.
pub open spec fn set_cookie_text(cookie: SessionCookieView) -> Seq<char> {
    cookie.name + "="@ + cookie.value + (if cookie.http_only {
        "; HttpOnly"@
    } else {
        Seq::<char>::empty()
    }) + "; SameSite="@ + same_site_word(cookie.same_site) + (if cookie.secure {
        "; Secure"@
    } else {
        Seq::<char>::empty()
    }) + "; Path="@ + cookie.path
}

/// Builds the cookie with the `cookie` crate, as re-exported by `axum_extra`,
/// and formats it with the crate's `Display`. The contract writes out what
/// that `Display` prints for a cookie on which exactly these attributes were
/// set: it prints name and value as they are, `HttpOnly` and `Secure` only
/// where set to true, and `SameSite` and `Path` always.
#[verifier::external_body]
fn render_cookie(cookie: &SessionCookie) -> (r: String)
    ensures
        r@ == set_cookie_text(cookie@),
{
    let same_site = match cookie.same_site {
        SameSite::Strict => axum_extra::extract::cookie::SameSite::Strict,
        SameSite::Lax => axum_extra::extract::cookie::SameSite::Lax,
        SameSite::CrossSite => axum_extra::extract::cookie::SameSite::None,
    };
    axum_extra::extract::cookie::Cookie::build((cookie.name.as_str(), cookie.value.as_str()))
        .http_only(cookie.http_only)
        .secure(cookie.secure)
        .same_site(same_site)
        .path(cookie.path.as_str())
        .build()
        .to_string()
}

impl SessionCookie {
    /// The value of the `Set-Cookie` header that sets this cookie.
    pub fn header_value(&self) -> (r: String)
        ensures
            r@ == set_cookie_text(self@),
    {
        render_cookie(self)
    }
}

/// Where the segment that starts at `from` ends: at the next `;`, or at the
/// end of the text.
pub open spec fn segment_end(text: Seq<char>, from: int) -> int
    decreases text.len() - from,
{
    if from < 0 || from >= text.len() {
        text.len() as int
    } else if text[from] == ';' {
        from
    } else {
        segment_end(text, from + 1)
    }
}

/// The first position at or after `from`, and before `end`, that holds no
/// space; `end` if there is none.
pub open spec fn skip_spaces(text: Seq<char>, from: int, end: int) -> int
    decreases end - from,
{
    if 0 <= from < end <= text.len() && text[from] == ' ' {
        skip_spaces(text, from + 1, end)
    } else {
        from
    }
}

/// The value of a `name=value` pair, if `pair` is one for exactly this name.
pub open spec fn pair_value(pair: Seq<char>, name: Seq<char>) -> Option<Seq<char>> {
    if pair.len() > name.len() && pair.subrange(0, name.len() as int) == name
        && pair[name.len() as int] == '=' {
        Some(pair.subrange(name.len() as int + 1, pair.len() as int))
    } else {
        None
    }
}

/// The value of the first cookie called `name` among the segments of `header`
/// that start at or after `from`. Segments are separated by `;`; spaces in
/// front of a pair are skipped.
pub open spec fn cookie_from(header: Seq<char>, name: Seq<char>, from: int) -> Option<Seq<char>>
    decreases header.len() - from,
{
    if from < 0 || from >= header.len() {
        None
    } else {
        let end = segment_end(header, from);
        let start = skip_spaces(header, from, end);
        match pair_value(header.subrange(start, end), name) {
            Some(value) => Some(value),
            // A segment never ends before it starts; saying so here lets the
            // search be seen to end. What remains is whether a `;` follows.
            None => if from <= end && end < header.len() {
                cookie_from(header, name, end + 1)
            } else {
                None
            },
        }
    }
}

/// The value of the cookie called `name` in a `Cookie` header. A header or a
/// name with characters outside ASCII holds no cookie that can be read.
pub open spec fn cookie_lookup(header: Seq<char>, name: Seq<char>) -> Option<Seq<char>> {
    if is_ascii_chars(header) && is_ascii_chars(name) {
        cookie_from(header, name, 0)
    } else {
        None
    }
}

/// Without a `;` in it, a text is one segment from any position to its end.
proof fn lemma_one_segment(text: Seq<char>, from: int)
    requires
        0 <= from <= text.len(),
        forall|i: int| from <= i < text.len() ==> text[i] != ';',
    ensures
        segment_end(text, from) == text.len(),
    decreases text.len() - from,
{
    if from < text.len() {
        lemma_one_segment(text, from + 1);
    }
}

/// A header that holds one pair gives the value of that pair back under its
/// name, provided that name and value are ASCII without `;` and the name does
/// not begin with a space. This is how a cookie that was set comes back.
pub proof fn lemma_pair_is_found(name: Seq<char>, value: Seq<char>)
    requires
        is_ascii_chars(name),
        is_ascii_chars(value),
        forall|i: int| 0 <= i < name.len() ==> name[i] != ';',
        forall|i: int| 0 <= i < value.len() ==> value[i] != ';',
        name.len() > 0 ==> name[0] != ' ',
    ensures
        cookie_lookup(name + seq!['='] + value, name) == Some(value),
{
    let header = name + seq!['='] + value;
    let n = name.len() as int;
    assert(header.len() == n + 1 + value.len());
    assert(header[n] == '=');
    assert forall|i: int| 0 <= i < header.len() implies '\0' <= #[trigger] header[i] <= '\u{7f}'
        && header[i] != ';' by {
        if i < n {
            assert(header[i] == name[i]);
        } else if i > n {
            assert(header[i] == value[i - n - 1]);
        }
    }
    lemma_one_segment(header, 0);
    assert(header[0] != ' ');
    assert(skip_spaces(header, 0, header.len() as int) == 0);
    assert(header.subrange(0, header.len() as int) =~= header);
    assert(header.subrange(0, n) =~= name);
    assert(header.subrange(n + 1, header.len() as int) =~= value);
}

/// The byte of `;`, which separates the pairs of a header.
const SEMICOLON: u8 = 59;

/// The byte of a space.
const SPACE: u8 = 32;

/// The byte of `=`, which separates a name from its value.
const EQUALS: u8 = 61;

/// Scans from `from` to the end of the segment.
fn segment_end_at(header: &str, n: usize, from: usize) -> (end: usize)
    requires
        header.is_ascii(),
        n == header@.len(),
        from <= n,
    ensures
        end == segment_end(header@, from as int),
        from <= end <= n,
{
    let mut end = from;
    while end < n
        invariant
            header.is_ascii(),
            n == header@.len(),
            from <= end <= n,
            segment_end(header@, from as int) == segment_end(header@, end as int),
        decreases n - end,
    {
        if header.get_ascii(end) == SEMICOLON {
            return end;
        }
        end = end + 1;
    }
    end
}

/// Scans over the spaces in front of a pair.
fn skip_spaces_at(header: &str, from: usize, end: usize) -> (start: usize)
    requires
        header.is_ascii(),
        from <= end <= header@.len(),
    ensures
        start == skip_spaces(header@, from as int, end as int),
        from <= start <= end,
{
    let mut start = from;
    while start < end
        invariant
            header.is_ascii(),
            from <= start <= end <= header@.len(),
            skip_spaces(header@, from as int, end as int) == skip_spaces(
                header@,
                start as int,
                end as int,
            ),
        decreases end - start,
    {
        if header.get_ascii(start) != SPACE {
            return start;
        }
        start = start + 1;
    }
    start
}

/// Reads the segment between `start` and `end` as a pair for `name`.
fn pair_value_at<'a>(header: &'a str, start: usize, end: usize, name: &str) -> (r: Option<&'a str>)
    requires
        header.is_ascii(),
        name.is_ascii(),
        start <= end <= header@.len(),
    ensures
        match r {
            Some(value) => pair_value(header@.subrange(start as int, end as int), name@) == Some(
                value@,
            ),
            None => pair_value(header@.subrange(start as int, end as int), name@) is None,
        },
{
    let m = name.unicode_len();
    let ghost pair = header@.subrange(start as int, end as int);
    if end - start <= m {
        return None;
    }
    let mut j: usize = 0;
    while j < m
        invariant
            header.is_ascii(),
            name.is_ascii(),
            m == name@.len(),
            start + m < end <= header@.len(),
            j <= m,
            pair == header@.subrange(start as int, end as int),
            pair.subrange(0, j as int) == name@.subrange(0, j as int),
        decreases m - j,
    {
        if header.get_ascii(start + j) != name.get_ascii(j) {
            assert(pair.subrange(0, m as int)[j as int] != name@[j as int]);
            return None;
        }
        assert(pair[j as int] == name@[j as int]);
        assert(pair.subrange(0, j + 1) =~= pair.subrange(0, j as int).push(pair[j as int]));
        assert(name@.subrange(0, j + 1) =~= name@.subrange(0, j as int).push(name@[j as int]));
        j = j + 1;
    }
    assert(name@.subrange(0, m as int) =~= name@);
    if header.get_ascii(start + m) != EQUALS {
        return None;
    }
    let value = header.substring_ascii(start + m + 1, end);
    assert(value@ =~= pair.subrange(m + 1, pair.len() as int));
    Some(value)
}

/// Finds the cookie called `name` in the value of a `Cookie` header.
pub fn find_cookie<'a>(header: &'a str, name: &str) -> (r: Option<&'a str>)
    ensures
        match r {
            Some(value) => cookie_lookup(header@, name@) == Some(value@),
            None => cookie_lookup(header@, name@) is None,
        },
{
    if !header.is_ascii() || !name.is_ascii() {
        return None;
    }
    let n = header.unicode_len();
    let mut from: usize = 0;
    while from < n
        invariant
            header.is_ascii(),
            name.is_ascii(),
            n == header@.len(),
            from <= n,
            cookie_from(header@, name@, 0) == cookie_from(header@, name@, from as int),
        decreases n - from,
    {
        let end = segment_end_at(header, n, from);
        let start = skip_spaces_at(header, from, end);
        match pair_value_at(header, start, end, name) {
            Some(value) => {
                return Some(value);
            },
            None => {},
        }
        if end >= n {
            return None;
        }
        from = end + 1;
    }
    None
}

} // verus!
