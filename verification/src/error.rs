//! The failures an invocation can end in, each with its one-line message.

use vstd::prelude::*;
use vstd::string::StringExecFns;

verus! {

/// Why an invocation failed.
///
/// The first four kinds are found while the request is resolved, before
/// anything is sent. The last two are reported by the front end, which alone
/// talks to the network and the file system.
#[derive(Debug, Clone, PartialEq, Eq)]
pub enum Error {
    /// A repeated `name value` flag came with an odd number of strings.
    MalformedPairList,
    /// `GET` or `DELETE` was asked for together with body fields.
    ConflictingMethodAndBody,
    /// The target, with its scheme supplied, is no URL.
    InvalidURL { target: String, reason: String },
    /// A header's name or value cannot go on the wire.
    InvalidHeader { name: String, value: String },
    /// The request was sent, or tried, and the transport failed.
    TransportError { cause: String },
    /// The output file could not be written.
    FileWriteError { path: String, cause: String },
}

/// An [`Error`] with its texts as character sequences.
pub enum ErrorView {
    MalformedPairList,
    ConflictingMethodAndBody,
    InvalidURL { target: Seq<char>, reason: Seq<char> },
    InvalidHeader { name: Seq<char>, value: Seq<char> },
    TransportError { cause: Seq<char> },
    FileWriteError { path: Seq<char>, cause: Seq<char> },
}

impl View for Error {
    type V = ErrorView;

    open spec fn view(&self) -> ErrorView {
        match *self {
            Error::MalformedPairList => ErrorView::MalformedPairList,
            Error::ConflictingMethodAndBody => ErrorView::ConflictingMethodAndBody,
            Error::InvalidURL { target, reason } => ErrorView::InvalidURL {
                target: target@,
                reason: reason@,
            },
            Error::InvalidHeader { name, value } => ErrorView::InvalidHeader {
                name: name@,
                value: value@,
            },
            Error::TransportError { cause } => ErrorView::TransportError { cause: cause@ },
            Error::FileWriteError { path, cause } => ErrorView::FileWriteError {
                path: path@,
                cause: cause@,
            },
        }
    }
}

/// A text or an error, by their views.
pub open spec fn text_or_error(r: Result<String, Error>) -> Result<Seq<char>, ErrorView> {
    match r {
        Ok(s) => Ok(s@),
        Err(e) => Err(e@),
    }
}

/// The message shown for an error.
pub open spec fn message_text(e: ErrorView) -> Seq<char> {
    match e {
        ErrorView::MalformedPairList => "malformed pair list: a name came without a value"@,
        ErrorView::ConflictingMethodAndBody => "GET and DELETE requests take no body fields"@,
        ErrorView::InvalidURL { target, reason } => "invalid URL "@ + target + ": "@ + reason,
        ErrorView::InvalidHeader { name, value } => "invalid header "@ + name + ": "@ + value,
        ErrorView::TransportError { cause } => "request failed: "@ + cause,
        ErrorView::FileWriteError { path, cause } => "cannot write "@ + path + ": "@ + cause,
    }
}

/// `head`, then `first`, then a colon and a space, then `second`.
fn labelled(head: &str, first: &str, second: &str) -> (r: String)
    ensures
        r@ == head@ + first@ + ": "@ + second@,
{
    let mut r = head.to_owned();
    r.append(first);
    r.append(": ");
    r.append(second);
    r
}

impl Error {
    /// The single human-readable line for this error.
    pub fn message(&self) -> (r: String)
        ensures
            r@ == message_text(self@),
    {
        match self {
            Error::MalformedPairList => "malformed pair list: a name came without a value".to_owned(),
            Error::ConflictingMethodAndBody => "GET and DELETE requests take no body fields".to_owned(),
            Error::InvalidURL { target, reason } => labelled(
                "invalid URL ",
                target.as_str(),
                reason.as_str(),
            ),
            Error::InvalidHeader { name, value } => labelled(
                "invalid header ",
                name.as_str(),
                value.as_str(),
            ),
            Error::TransportError { cause } => {
                let mut r = "request failed: ".to_owned();
                r.append(cause.as_str());
                r
            },
            Error::FileWriteError { path, cause } => labelled(
                "cannot write ",
                path.as_str(),
                cause.as_str(),
            ),
        }
    }
}

} // verus!
