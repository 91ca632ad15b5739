//! Targets: the scheme they get where they name none, and the URL they
//! become with their query pairs.

use vstd::prelude::*;
use vstd::string::StringExecFns;
use crate::error::{text_or_error, Error, ErrorView};
use crate::pairs::{pairs_view, PairList};
use crate::text::{chars_of, starts_with};

verus! {

/// What `url::Url::parse_with_params` makes of a text and the pairs to add to
/// its query: the serialisation of the parsed URL, or the message of the
/// parse error.
pub uninterp spec fn url_with_params(
    input: Seq<char>,
    pairs: Seq<(Seq<char>, Seq<char>)>,
) -> Result<Seq<char>, Seq<char>>;

/// What `hyper::Uri`'s parser makes of a text: the parsed URI written out
/// again, or the message of the parse error.
pub uninterp spec fn uri_text(input: Seq<char>) -> Result<Seq<char>, Seq<char>>;

/// A result of strings as a result of character sequences.
pub open spec fn text_result(r: Result<String, String>) -> Result<Seq<char>, Seq<char>> {
    match r {
        Ok(s) => Ok(s@),
        Err(e) => Err(e@),
    }
}

/// The most characters, target and query pairs together, that are handed to
/// the URL parser. Its offsets are 32 bits wide, and it panics where a query
/// is added to a URL that has a fragment and outgrows them; this bound keeps
/// far away from that.
pub const MAX_URL_CHARS: usize = 16_777_216;

/// The characters of all keys and values together.
pub open spec fn pairs_chars(pairs: Seq<(Seq<char>, Seq<char>)>) -> nat
    decreases pairs.len(),
{
    if pairs.len() == 0 {
        0
    } else {
        pairs_chars(pairs.drop_last()) + pairs.last().0.len() + pairs.last().1.len()
    }
}

/// Whether a text and the pairs for its query are within [`MAX_URL_CHARS`].
pub open spec fn url_size_ok(text: Seq<char>, pairs: Seq<(Seq<char>, Seq<char>)>) -> bool {
    text.len() + pairs_chars(pairs) <= MAX_URL_CHARS
}

/// Calls `url::Url::parse_with_params` on `input` and `pairs`, and hands back
/// the URL's serialisation (`Url::as_str`) or the error's message.
///
/// Trusted: the result is the one named by [`url_with_params`]. The call
/// panics where the URL has a fragment and, with its new query, passes 4 GB,
/// which `requires` leaves out by a wide margin.
#[verifier::external_body]
pub(crate) fn parse_with_params(input: &str, pairs: &Vec<(String, String)>) -> (r: Result<String, String>)
    requires
        url_size_ok(input@, pairs_view(pairs@)),
    ensures
        text_result(r) == url_with_params(input@, pairs_view(pairs@)),
{
    match url::Url::parse_with_params(input, pairs.iter()) {
        Ok(url) => Ok(url.as_str().to_owned()),
        Err(e) => Err(e.to_string()),
    }
}

/// Calls `hyper::Uri`'s `from_str` on `input`, and hands back the URI written
/// out again or the error's message.
///
/// Trusted: the result is the one named by [`uri_text`].
#[verifier::external_body]
pub(crate) fn parse_uri(input: &str) -> (r: Result<String, String>)
    ensures
        text_result(r) == uri_text(input@),
{
    match input.parse::<hyper::Uri>() {
        Ok(uri) => Ok(uri.to_string()),
        Err(e) => Err(e.to_string()),
    }
}

/// A target with its scheme: itself where it begins with `http://` or
/// `https://`, else with `http://` in front.
pub open spec fn with_scheme(target: Seq<char>) -> Seq<char> {
    if "http://"@.is_prefix_of(target) || "https://"@.is_prefix_of(target) {
        target
    } else {
        "http://"@ + target
    }
}

/// Supplying the scheme twice changes nothing more.
pub proof fn lemma_with_scheme_idempotent(target: Seq<char>)
    ensures
        with_scheme(with_scheme(target)) == with_scheme(target),
{
    let http = "http://"@;
    if !(http.is_prefix_of(target) || "https://"@.is_prefix_of(target)) {
        assert((http + target).subrange(0, http.len() as int) =~= http);
    }
}

/// Computes [`with_scheme`].
pub fn normalize_scheme(target: &str) -> (r: String)
    ensures
        r@ == with_scheme(target@),
{
    let chars = chars_of(target);
    let http = chars_of("http://");
    let https = chars_of("https://");
    if starts_with(&chars, &http) || starts_with(&chars, &https) {
        target.to_owned()
    } else {
        let mut r = "http://".to_owned();
        r.append(target);
        r
    }
}

/// The error for a target that is no URL.
pub open spec fn invalid_url(target: Seq<char>, reason: Seq<char>) -> ErrorView {
    ErrorView::InvalidURL { target, reason }
}

/// What the second parser's verdict on `text` means for the request to
/// `target`.
pub open spec fn outcome_for(target: Seq<char>, parsed: Result<Seq<char>, Seq<char>>) -> Result<
    Seq<char>,
    ErrorView,
> {
    match parsed {
        Ok(text) => Ok(text),
        Err(reason) => Err(invalid_url(target, reason)),
    }
}

/// A parser's verdict as the resolver's: the URL, or `InvalidURL` with the
/// target and the parser's message.
pub fn url_outcome(target: &str, parsed: Result<String, String>) -> (r: Result<String, Error>)
    ensures
        text_or_error(r) == outcome_for(target@, text_result(parsed)),
{
    match parsed {
        Ok(text) => Ok(text),
        Err(reason) => Err(Error::InvalidURL { target: target.to_owned(), reason }),
    }
}

/// The URL for a target and its query pairs.
///
/// Without pairs the target, scheme supplied, goes through the URI parser
/// alone. With pairs it first goes through the URL parser, which adds them to
/// its query; a target and pairs beyond [`MAX_URL_CHARS`] are refused before.
pub open spec fn composed_url(target: Seq<char>, query: Seq<(Seq<char>, Seq<char>)>) -> Result<
    Seq<char>,
    ErrorView,
> {
    let full = with_scheme(target);
    if query.len() == 0 {
        outcome_for(full, uri_text(full))
    } else if !url_size_ok(full, query) {
        Err(invalid_url(full, "URL too long"@))
    } else {
        match url_with_params(full, query) {
            Ok(text) => outcome_for(full, uri_text(text)),
            Err(reason) => Err(invalid_url(full, reason)),
        }
    }
}

/// A target resolves to the same URL with its scheme supplied beforehand as
/// without: `example.com/x` and `http://example.com/x` are one request.
pub proof fn lemma_composed_url_scheme(target: Seq<char>, query: Seq<(Seq<char>, Seq<char>)>)
    ensures
        composed_url(with_scheme(target), query) == composed_url(target, query),
{
    lemma_with_scheme_idempotent(target);
}

/// The size of a prefix of the pairs is at most the size of all.
proof fn lemma_pairs_chars_prefix(pairs: Seq<(Seq<char>, Seq<char>)>, n: int)
    requires
        0 <= n <= pairs.len(),
    ensures
        pairs_chars(pairs.take(n)) <= pairs_chars(pairs),
    decreases pairs.len() - n,
{
    if n == pairs.len() {
        assert(pairs.take(n) =~= pairs);
    } else {
        lemma_pairs_chars_prefix(pairs, n + 1);
        assert(pairs.take(n + 1).drop_last() =~= pairs.take(n));
    }
}

/// Whether a text and the pairs for its query are within [`MAX_URL_CHARS`].
pub fn fits_url_limit(text: &str, pairs: &PairList) -> (r: bool)
    ensures
        r == url_size_ok(text@, pairs@),
{
    let mut total: usize = text.unicode_len();
    if total > MAX_URL_CHARS {
        return false;
    }
    let mut i: usize = 0;
    assert(pairs@.take(0) =~= Seq::empty());
    while i < pairs.pairs.len()
        invariant
            i <= pairs.pairs.len(),
            total == text@.len() + pairs_chars(pairs@.take(i as int)),
            total <= MAX_URL_CHARS,
        decreases pairs.pairs.len() - i,
    {
        let key_len: usize = pairs.pairs[i].0.as_str().unicode_len();
        let value_len: usize = pairs.pairs[i].1.as_str().unicode_len();
        proof {
            assert(pairs@.take(i + 1).drop_last() =~= pairs@.take(i as int));
            assert(pairs@.take(i + 1).last() == pairs@[i as int]);
            lemma_pairs_chars_prefix(pairs@, i + 1);
        }
        if key_len > MAX_URL_CHARS - total {
            return false;
        }
        total = total + key_len;
        if value_len > MAX_URL_CHARS - total {
            return false;
        }
        total = total + value_len;
        i = i + 1;
    }
    assert(pairs@.take(pairs@.len() as int) =~= pairs@);
    true
}

/// Resolves a target and its query pairs into the URL to request.
pub fn compose_url(target: &str, query: &PairList) -> (r: Result<String, Error>)
    ensures
        text_or_error(r) == composed_url(target@, query@),
{
    let full = normalize_scheme(target);
    if query.is_empty() {
        let parsed = parse_uri(full.as_str());
        url_outcome(full.as_str(), parsed)
    } else if !fits_url_limit(full.as_str(), query) {
        Err(Error::InvalidURL { target: full, reason: "URL too long".to_owned() })
    } else {
        match parse_with_params(full.as_str(), &query.pairs) {
            Ok(text) => {
                let parsed = parse_uri(text.as_str());
                url_outcome(full.as_str(), parsed)
            },
            Err(reason) => Err(Error::InvalidURL { target: full, reason }),
        }
    }
}

} // verus!
