//! The three readings of flag values: a target with query pairs as a
//! URL, header pairs as checked headers, body pairs as an encoded body.
//! Each takes the alternating `name value` strings as the flags give them.

use vstd::prelude::*;
use crate::encode::{body_text, encode_body};
use crate::error::{text_or_error, Error, ErrorView};
use crate::header::{check_headers, checked_headers};
use crate::pairs::{flatten_pairs, flattened, pairs_or_error, texts, PairList};
use crate::target::{compose_url, composed_url};

verus! {

/// How the body fields are written down.
#[derive(Debug, Clone, Copy, PartialEq, Eq, Structural)]
pub enum BodyFormat {
    JSON,
    FORM,
}

/// What [`uri`] gives for a target and the strings of the query flag.
pub open spec fn uri_for(url: Seq<char>, query: Option<Seq<Seq<char>>>) -> Result<Seq<char>, ErrorView> {
    match query {
        None => composed_url(url, Seq::empty()),
        Some(items) => match flattened(items) {
            Ok(pairs) => composed_url(url, pairs),
            Err(e) => Err(e),
        },
    }
}

/// The strings of an optional flag as character sequences.
pub open spec fn optional_texts(items: Option<&[&str]>) -> Option<Seq<Seq<char>>> {
    match items {
        None => None,
        Some(slice) => Some(texts(slice@)),
    }
}

/// Resolves a target and the strings of the query flag into the URL to
/// request.
///
/// The target gets `http://` in front unless it names `http` or `https`
/// itself. Query pairs are percent-encoded and added to whatever query the
/// target carries; without pairs the target's own query stays as it is.
pub fn uri(url: String, query: Option<&[&str]>) -> (r: Result<String, Error>)
    ensures
        text_or_error(r) == uri_for(url@, optional_texts(query)),
{
    match query {
        None => {
            let none = PairList::new();
            compose_url(url.as_str(), &none)
        },
        Some(items) => {
            match flatten_pairs(items) {
                Ok(pairs) => compose_url(url.as_str(), &pairs),
                Err(e) => Err(e),
            }
        },
    }
}

/// What [`headers`] gives for the strings of the header flag.
pub open spec fn headers_for(items: Seq<Seq<char>>) -> Result<Seq<(Seq<char>, Seq<char>)>, ErrorView> {
    match flattened(items) {
        Ok(pairs) => checked_headers(pairs),
        Err(e) => Err(e),
    }
}

/// Turns the strings of the header flag into headers, each as it was given.
///
/// A name must be a token, a value must hold nothing that breaks a header
/// line. One bad header refuses the whole list and is named in the error.
pub fn headers(header_list: &[&str]) -> (r: Result<PairList, Error>)
    ensures
        pairs_or_error(r) == headers_for(texts(header_list@)),
{
    match flatten_pairs(header_list) {
        Ok(pairs) => check_headers(pairs),
        Err(e) => Err(e),
    }
}

/// What [`body`] gives for the strings of the body flag.
pub open spec fn body_for(items: Seq<Seq<char>>, format: BodyFormat) -> Result<Seq<char>, ErrorView> {
    match flattened(items) {
        Ok(pairs) => Ok(body_text(pairs, format)),
        Err(e) => Err(e),
    }
}

/// Encodes the strings of the body flag in the given format.
pub fn body(attr_list: &[&str], format: BodyFormat) -> (r: Result<String, Error>)
    ensures
        text_or_error(r) == body_for(texts(attr_list@), format),
{
    match flatten_pairs(attr_list) {
        Ok(pairs) => Ok(encode_body(&pairs, format)),
        Err(e) => Err(e),
    }
}

} // verus!
