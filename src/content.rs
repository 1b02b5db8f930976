//! The initial content of a webview: a URL, a file path or HTML markup, each
//! turned into the URL form that the native library loads.

use std::borrow::Cow;
use vstd::prelude::*;

verus! {

/// Initial content for a webview.
pub enum Content<'c> {
    /// A web address; `http://` is put in front where no scheme is given.
    Url(Cow<'c, str>),
    /// A local file path, loaded through `file:///`.
    File(Cow<'c, str>),
    /// HTML markup, loaded as a `data:text/html,` URL.
    Html(Cow<'c, str>),
}

/// `p` is a prefix of `s`.
pub open spec fn has_prefix(s: Seq<char>, p: Seq<char>) -> bool {
    p.len() <= s.len() && s.subrange(0, p.len() as int) == p
}

/// `s` with `p` put in front, unless it already starts with `p`.
pub open spec fn prefixed(s: Seq<char>, p: Seq<char>) -> Seq<char> {
    if has_prefix(s, p) {
        s
    } else {
        p + s
    }
}

/// `s` starts with a web scheme.
pub open spec fn has_web_scheme(s: Seq<char>) -> bool {
    has_prefix(s, "http://"@) || has_prefix(s, "https://"@)
}

/// The URL a web address stands for.
pub open spec fn url_text(s: Seq<char>) -> Seq<char> {
    if has_web_scheme(s) {
        s
    } else {
        "http://"@ + s
    }
}

/// The URL a file path stands for.
pub open spec fn file_text(s: Seq<char>) -> Seq<char> {
    prefixed(s, "file:///"@)
}

/// The URL a piece of HTML markup stands for.
pub open spec fn html_text(s: Seq<char>) -> Seq<char> {
    prefixed(s, "data:text/html,"@)
}

/// The URL that the native library is given for this content.
pub open spec fn content_text(c: Content) -> Seq<char> {
    match c {
        Content::Url(s) => url_text(s@),
        Content::File(s) => file_text(s@),
        Content::Html(s) => html_text(s@),
    }
}

/// Whether `string` starts with `prefix`.
fn starts_with(string: &str, prefix: &str) -> (r: bool)
    ensures
        r == has_prefix(string@, prefix@),
{
    let n = prefix.unicode_len();
    let m = string.unicode_len();
    if n > m {
        return false;
    }
    let mut i: usize = 0;
    while i < n
        invariant
            n == prefix@.len(),
            m == string@.len(),
            n <= m,
            i <= n,
            forall|j: int| 0 <= j < i ==> string@[j] == prefix@[j],
        decreases n - i,
    {
        if string.get_char(i) != prefix.get_char(i) {
            assert(string@.subrange(0, n as int)[i as int] != prefix@[i as int]);
            return false;
        }
        i = i + 1;
    }
    assert(string@.subrange(0, n as int) =~= prefix@);
    true
}

/// Whether `string` starts with any of the given prefixes.
pub fn string_starts_with_any(string: &str, any: &[&str]) -> (r: bool)
    ensures
        r == exists|i: int| 0 <= i < any@.len() && has_prefix(string@, #[trigger] any@[i]@),
{
    let mut i: usize = 0;
    while i < any.len()
        invariant
            i <= any@.len(),
            forall|j: int| 0 <= j < i ==> !has_prefix(string@, #[trigger] any@[j]@),
        decreases any@.len() - i,
    {
        if starts_with(string, any[i]) {
            return true;
        }
        i = i + 1;
    }
    false
}

/// `prefix` followed by `string`, as a new text.
fn prepend<'s>(prefix: &str, string: Cow<'s, str>) -> (r: Cow<'s, str>)
    ensures
        r@ == prefix@ + string@,
        r is Owned,
{
    let mut joined = String::from_str(prefix);
    match string {
        Cow::Borrowed(s) => joined.append(s),
        Cow::Owned(s) => joined.append(s.as_str()),
    }
    Cow::Owned(joined)
}

/// The content unchanged where it starts with `prefix`, else with `prefix` put in front.
fn with_prefix<'s>(prefix: &str, content: Cow<'s, str>) -> (r: Cow<'s, str>)
    ensures
        r@ == prefixed(content@, prefix@),
        r is Borrowed <==> (content is Borrowed && has_prefix(content@, prefix@)),
{
    let found = match &content {
        Cow::Borrowed(s) => starts_with(s, prefix),
        Cow::Owned(s) => starts_with(s.as_str(), prefix),
    };
    if found {
        content
    } else {
        prepend(prefix, content)
    }
}

/// A web address as a URL: unchanged where it starts with `http://` or
/// `https://`, else with `http://` in front.
pub fn into_url<'s>(content: Cow<'s, str>) -> (r: Cow<'s, str>)
    ensures
        r@ == url_text(content@),
        r is Borrowed <==> (content is Borrowed && has_web_scheme(content@)),
{
    let found = match &content {
        Cow::Borrowed(s) => string_starts_with_any(s, &["http://", "https://"]),
        Cow::Owned(s) => string_starts_with_any(s.as_str(), &["http://", "https://"]),
    };
    if found {
        content
    } else {
        prepend("http://", content)
    }
}

/// A file path as a `file:///` URL.
pub fn into_file_path<'s>(content: Cow<'s, str>) -> (r: Cow<'s, str>)
    ensures
        r@ == file_text(content@),
        r is Borrowed <==> (content is Borrowed && has_prefix(content@, "file:///"@)),
{
    with_prefix("file:///", content)
}

/// HTML markup as a `data:text/html,` URL.
pub fn into_html<'s>(content: Cow<'s, str>) -> (r: Cow<'s, str>)
    ensures
        r@ == html_text(content@),
        r is Borrowed <==> (content is Borrowed && has_prefix(content@, "data:text/html,"@)),
{
    with_prefix("data:text/html,", content)
}

impl<'c> Content<'c> {
    /// The URL that the native library is given for this content.
    pub fn into_text(self) -> (r: Cow<'c, str>)
        ensures
            r@ == content_text(self),
    {
        match self {
            Content::Url(s) => into_url(s),
            Content::File(s) => into_file_path(s),
            Content::Html(s) => into_html(s),
        }
    }
}

} // verus!
