//! Absolute URLs, as text.

use vstd::prelude::*;

verus! {

/// The serialization that `url::Url::parse` gives a text, if it parses.
pub uninterp spec fn parsed_url(s: Seq<char>) -> Option<Seq<char>>;

/// The scheme of a serialized URL: everything before its first `:`.
pub open spec fn scheme_part(href: Seq<char>) -> Seq<char>
    decreases href.len(),
{
    if href.len() == 0 || href[0] == ':' {
        Seq::empty()
    } else {
        seq![href[0]] + scheme_part(href.drop_first())
    }
}

/// A parsed URL: its serialization and its scheme.
pub struct ParsedUrl {
    pub href: String,
    pub scheme: String,
}

/// Relies on `url::Url::parse`, `Url::as_str` (the serialization) and `Url::scheme`
/// (the serialization up to the `:` that ends the scheme; a scheme holds no `:`).
#[verifier::external_body]
pub(crate) fn parse_url(s: &str) -> (r: Option<ParsedUrl>)
    ensures
        match r {
            Some(u) => parsed_url(s@) == Some(u.href@) && u.scheme@ == scheme_part(u.href@),
            None => parsed_url(s@) is None,
        },
{
    match url::Url::parse(s) {
        Ok(u) => Some(ParsedUrl { href: u.as_str().to_string(), scheme: u.scheme().to_string() }),
        Err(_) => None,
    }
}

/// Character-wise equality of two texts.
pub fn same_text(a: &str, b: &str) -> (r: bool)
    ensures
        r == (a@ == b@),
{
    let n = a.unicode_len();
    if n != b.unicode_len() {
        return false;
    }
    let mut i: usize = 0;
    while i < n
        invariant
            n == a@.len(),
            n == b@.len(),
            i <= n,
            forall|k: int| 0 <= k < i ==> a@[k] == b@[k],
        decreases n - i,
    {
        if a.get_char(i) != b.get_char(i) {
            return false;
        }
        i = i + 1;
    }
    assert(a@ =~= b@);
    true
}

/// Whether a scheme is one a webhook may use.
pub open spec fn is_http_scheme(scheme: Seq<char>) -> bool {
    scheme == "http"@ || scheme == "https"@
}

/// Tests `scheme` against `http` and `https`.
pub fn http_scheme(scheme: &str) -> (r: bool)
    ensures
        r == is_http_scheme(scheme@),
{
    same_text(scheme, "http") || same_text(scheme, "https")
}

} // verus!
