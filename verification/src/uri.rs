//! Absolute URLs as the broker handles them: redirect targets of clients and
//! the query strings written onto them. Parsing and percent-encoding are the
//! `url` and `serde_urlencoded` crates' work.

use vstd::prelude::*;
use crate::handler_error::HandlerError;
use crate::handler_error::HandlerErrorView;
use crate::text::opt_view;
use crate::text::pairs_view;

verus! {

/// The error that `serde_urlencoded` reports for a value it cannot encode.
#[verifier::external_type_specification]
#[verifier::external_body]
pub struct ExFormError(serde_urlencoded::ser::Error);

/// The most characters of a URL, or of a name or value written into one,
/// that is handed to the `url` crate.
pub const MAX_TEXT_LEN: usize = 0x10_0000;

/// The most characters of a query string that is written onto a URL.
pub const MAX_QUERY_LEN: usize = 0x400_0000;

/// The most name and value pairs that are written into one query string.
pub const MAX_PAIRS: usize = 16;

/// The serialization of the URL that `Url::parse` reads from `text`, or
/// `None` where it reads none.
pub uninterp spec fn url_parsed(text: Seq<char>) -> Option<Seq<char>>;

/// The serialization of the URL read from `url` after `Url::set_query` has
/// replaced its query by `query`, or `None` where `url` is no URL.
pub uninterp spec fn url_with_query(url: Seq<char>, query: Seq<char>) -> Option<Seq<char>>;

/// The serialization that `Url::parse_with_params` gives for `url` and
/// `pairs`: the URL read from `url` with each pair appended to its query,
/// or `None` where `url` is no URL.
pub uninterp spec fn url_with_params(url: Seq<char>, pairs: Seq<(Seq<char>, Seq<char>)>) -> Option<
    Seq<char>,
>;

/// What `serde_urlencoded::to_string` writes for a list of pairs, or `None`
/// where it reports an error.
pub uninterp spec fn form_urlencoded(pairs: Seq<(Seq<char>, Seq<char>)>) -> Option<Seq<char>>;

/// Calls `url::Url::parse` and hands back the URL's serialization. The
/// result is `Ok` exactly where `url_parsed` is `Some`, and then holds it.
#[verifier::external_body]
fn url_parse(text: &str) -> (parsed: Result<String, url::ParseError>)
    ensures
        parsed is Ok == url_parsed(text@) is Some,
        parsed is Ok ==> url_parsed(text@) == Some(parsed->Ok_0@),
{
    url::Url::parse(text).map(String::from)
}

/// Calls `url::Url::set_query` on the URL read from `url`. The lengths are
/// bounded because the `url` crate panics on a serialization beyond 4 GB.
#[verifier::external_body]
fn url_set_query(url: &str, query: &str) -> (changed: Option<String>)
    requires
        url@.len() <= MAX_TEXT_LEN,
        query@.len() <= MAX_QUERY_LEN,
    ensures
        opt_view(changed) == url_with_query(url@, query@),
{
    let mut parsed = url::Url::parse(url).ok()?;
    parsed.set_query(Some(query));
    Some(String::from(parsed))
}

/// Calls `url::Url::parse_with_params`. The lengths are bounded because the
/// `url` crate panics on a serialization beyond 4 GB.
#[verifier::external_body]
fn url_parse_with_params(url: &str, pairs: &Vec<(String, String)>) -> (extended: Option<String>)
    requires
        url@.len() <= MAX_TEXT_LEN,
        pairs@.len() <= MAX_PAIRS,
        forall|i: int|
            0 <= i < pairs@.len() ==> (#[trigger] pairs@[i]).0@.len() <= MAX_TEXT_LEN
                && pairs@[i].1@.len() <= MAX_TEXT_LEN,
    ensures
        opt_view(extended) == url_with_params(url@, pairs_view(pairs@)),
{
    url::Url::parse_with_params(url, pairs).ok().map(String::from)
}

/// Calls `serde_urlencoded::to_string` on a list of pairs. The result is
/// `Ok` exactly where `form_urlencoded` is `Some`, and then holds it.
#[verifier::external_body]
fn form_encode(
    pairs: &Vec<(String, String)>,
) -> (encoded: Result<String, serde_urlencoded::ser::Error>)
    ensures
        encoded is Ok == form_urlencoded(pairs_view(pairs@)) is Some,
        encoded is Ok ==> form_urlencoded(pairs_view(pairs@)) == Some(encoded->Ok_0@),
{
    serde_urlencoded::to_string(pairs)
}

/// Whether every name and value of `pairs` is short enough to be written
/// into a URL, and the pairs are few enough.
pub open spec fn pairs_fit(pairs: Seq<(Seq<char>, Seq<char>)>) -> bool {
    &&& pairs.len() <= MAX_PAIRS
    &&& forall|i: int|
        0 <= i < pairs.len() ==> (#[trigger] pairs[i]).0.len() <= MAX_TEXT_LEN && pairs[i].1.len()
            <= MAX_TEXT_LEN
}

/// `url` with its query replaced by `query`: as the `url` crate writes it,
/// and `None` where `url` is no URL or a part is too long.
pub open spec fn spec_with_query(url: Seq<char>, query: Seq<char>) -> Option<Seq<char>> {
    if url.len() <= MAX_TEXT_LEN && query.len() <= MAX_QUERY_LEN {
        url_with_query(url, query)
    } else {
        None
    }
}

/// `url` with `pairs` appended to its query: as the `url` crate writes it,
/// and `None` where `url` is no URL or a part is too long.
pub open spec fn spec_with_params(url: Seq<char>, pairs: Seq<(Seq<char>, Seq<char>)>) -> Option<
    Seq<char>,
> {
    if url.len() <= MAX_TEXT_LEN && pairs_fit(pairs) {
        url_with_params(url, pairs)
    } else {
        None
    }
}

/// Tells whether `pairs` may be written into a URL.
fn check_pairs_fit(pairs: &Vec<(String, String)>) -> (fit: bool)
    ensures
        fit == pairs_fit(pairs_view(pairs@)),
{
    if pairs.len() > MAX_PAIRS {
        return false;
    }
    let mut i: usize = 0;
    while i < pairs.len()
        invariant
            i <= pairs.len(),
            pairs.len() <= MAX_PAIRS,
            forall|k: int|
                0 <= k < i ==> (#[trigger] pairs@[k]).0@.len() <= MAX_TEXT_LEN && pairs@[k].1@.len()
                    <= MAX_TEXT_LEN,
        decreases pairs.len() - i,
    {
        if pairs[i].0.as_str().unicode_len() > MAX_TEXT_LEN || pairs[i].1.as_str().unicode_len()
            > MAX_TEXT_LEN {
            proof {
                let v = pairs_view(pairs@);
                assert(v[i as int] == (pairs@[i as int].0@, pairs@[i as int].1@));
            }
            return false;
        }
        i += 1;
    }
    proof {
        let v = pairs_view(pairs@);
        assert forall|k: int| 0 <= k < v.len() implies (#[trigger] v[k]).0.len() <= MAX_TEXT_LEN
            && v[k].1.len() <= MAX_TEXT_LEN by {
            assert(v[k] == (pairs@[k].0@, pairs@[k].1@));
        }
    }
    true
}

/// `url` with its query replaced by `query`.
pub fn with_query(url: &str, query: &str) -> (changed: Option<String>)
    ensures
        opt_view(changed) == spec_with_query(url@, query@),
{
    if url.unicode_len() <= MAX_TEXT_LEN && query.unicode_len() <= MAX_QUERY_LEN {
        url_set_query(url, query)
    } else {
        None
    }
}

/// `url` with `pairs` appended to its query.
pub fn with_params(url: &str, pairs: &Vec<(String, String)>) -> (extended: Option<String>)
    ensures
        opt_view(extended) == spec_with_params(url@, pairs_view(pairs@)),
{
    if url.unicode_len() <= MAX_TEXT_LEN && check_pairs_fit(pairs) {
        proof {
            let v = pairs_view(pairs@);
            assert forall|i: int| 0 <= i < pairs@.len() implies (#[trigger] pairs@[i]).0@.len()
                <= MAX_TEXT_LEN && pairs@[i].1@.len() <= MAX_TEXT_LEN by {
                assert(v[i] == (pairs@[i].0@, pairs@[i].1@));
            }
        }
        url_parse_with_params(url, pairs)
    } else {
        None
    }
}

/// The pairs in `application/x-www-form-urlencoded` form.
pub fn encode_form(pairs: &Vec<(String, String)>) -> (encoded: Option<String>)
    ensures
        opt_view(encoded) == form_urlencoded(pairs_view(pairs@)),
{
    match form_encode(pairs) {
        Ok(text) => Some(text),
        Err(_) => None,
    }
}

/// An absolute URL, held as the `url` crate serializes it. Two are equal
/// where their serializations are.
#[derive(Debug, Clone, PartialEq, Eq)]
pub struct RedirectUri {
    text: String,
}

impl View for RedirectUri {
    type V = Seq<char>;

    closed spec fn view(&self) -> Seq<char> {
        self.text@
    }
}

impl RedirectUri {
    /// Reads an absolute URL. It is `Ok` for exactly the strings that the
    /// `url` crate accepts, and then holds the serialization it gives.
    pub fn parse(text: &str) -> (parsed: Result<RedirectUri, HandlerError>)
        ensures
            parsed is Ok == url_parsed(text@) is Some,
            parsed is Ok ==> url_parsed(text@) == Some(parsed->Ok_0@),
            parsed is Err ==> parsed->Err_0@ is ParseUrl,
    {
        match url_parse(text) {
            Ok(serialized) => Ok(RedirectUri { text: serialized }),
            Err(e) => Err(HandlerError::ParseUrl(e)),
        }
    }

    /// The serialization.
    pub fn as_str(&self) -> (text: &str)
        ensures
            text@ == self@,
    {
        self.text.as_str()
    }

    /// Whether two URLs are the same.
    pub fn same(&self, other: &RedirectUri) -> (same: bool)
        ensures
            same == (self@ == other@),
    {
        self.text == other.text
    }

    /// A copy of the URL.
    pub fn duplicate(&self) -> (copy: RedirectUri)
        ensures
            copy@ == self@,
    {
        RedirectUri { text: self.text.clone() }
    }
}

} // verus!
