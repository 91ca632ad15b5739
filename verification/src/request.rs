//! The request resolver: from a target, pair lists and flags to the one
//! request that is sent.

use vstd::prelude::*;
use vstd::utf8::encode_utf8;
use crate::encode::{body_text, encode_body, lemma_body_text_nonempty};
use crate::error::{Error, ErrorView};
use crate::header::{
    all_headers_ok, check_headers, checked_headers, header_ok, lemma_first_bad_header,
};
use crate::pairs::PairList;
use crate::parsers::BodyFormat;
use crate::target::{compose_url, composed_url, lemma_composed_url_scheme, with_scheme};
use crate::text::{chars_of, lower, lower_equals};

verus! {

/// The request methods the client speaks.
#[derive(Debug, Clone, Copy, PartialEq, Eq, Structural)]
pub enum Method {
    GET,
    POST,
    PUT,
    DELETE,
}

impl Method {
    /// The method's name as it goes on the wire.
    pub open spec fn name_text(self) -> Seq<char> {
        match self {
            Method::GET => "GET"@,
            Method::POST => "POST"@,
            Method::PUT => "PUT"@,
            Method::DELETE => "DELETE"@,
        }
    }

    /// Whether a request of this method goes out without a body.
    pub open spec fn bodiless(self) -> bool {
        self == Method::GET || self == Method::DELETE
    }

    /// The method's name as it goes on the wire.
    pub fn name(&self) -> (r: &'static str)
        ensures
            r@ == self.name_text(),
    {
        match self {
            Method::GET => "GET",
            Method::POST => "POST",
            Method::PUT => "PUT",
            Method::DELETE => "DELETE",
        }
    }

    /// The method that `name` names, whatever its case.
    pub open spec fn named(name: Seq<char>) -> Option<Method> {
        if lower(name) == "get"@ {
            Some(Method::GET)
        } else if lower(name) == "post"@ {
            Some(Method::POST)
        } else if lower(name) == "put"@ {
            Some(Method::PUT)
        } else if lower(name) == "delete"@ {
            Some(Method::DELETE)
        } else {
            None
        }
    }

    /// Reads a method's name, whatever its case.
    pub fn from_name(name: &str) -> (r: Option<Method>)
        ensures
            r == Method::named(name@),
    {
        let chars = chars_of(name);
        if lower_equals(&chars, &chars_of("get")) {
            Some(Method::GET)
        } else if lower_equals(&chars, &chars_of("post")) {
            Some(Method::POST)
        } else if lower_equals(&chars, &chars_of("put")) {
            Some(Method::PUT)
        } else if lower_equals(&chars, &chars_of("delete")) {
            Some(Method::DELETE)
        } else {
            None
        }
    }
}

/// The method of a request.
///
/// A method that was asked for stands, unless it is `GET` or `DELETE` and
/// body fields came with it. Without one, body fields or a body format make
/// it `POST`, and nothing makes it `GET`.
pub open spec fn method_for(explicit: Option<Method>, has_body: bool, format_given: bool) -> Result<
    Method,
    ErrorView,
> {
    match explicit {
        Some(method) => if method.bodiless() && has_body {
            Err(ErrorView::ConflictingMethodAndBody)
        } else {
            Ok(method)
        },
        None => if has_body || format_given {
            Ok(Method::POST)
        } else {
            Ok(Method::GET)
        },
    }
}

/// A method or an error, the error by its view.
pub open spec fn method_or_error(r: Result<Method, Error>) -> Result<Method, ErrorView> {
    match r {
        Ok(method) => Ok(method),
        Err(e) => Err(e@),
    }
}

/// Computes [`method_for`].
pub fn resolve_method(explicit: Option<Method>, has_body: bool, format_given: bool) -> (r: Result<
    Method,
    Error,
>)
    ensures
        method_or_error(r) == method_for(explicit, has_body, format_given),
{
    match explicit {
        Some(method) => {
            let bodiless = match method {
                Method::GET => true,
                Method::DELETE => true,
                _ => false,
            };
            if bodiless && has_body {
                Err(Error::ConflictingMethodAndBody)
            } else {
                Ok(method)
            }
        },
        None => if has_body || format_given {
            Ok(Method::POST)
        } else {
            Ok(Method::GET)
        },
    }
}

/// The body format that two flags ask for: JSON where `json` is set,
/// whatever `form` says; the form encoding where `form` alone is set.
pub fn resolve_format(json: bool, form: bool) -> (r: Option<BodyFormat>)
    ensures
        r == (if json {
            Some(BodyFormat::JSON)
        } else if form {
            Some(BodyFormat::FORM)
        } else {
            None
        }),
{
    if json {
        Some(BodyFormat::JSON)
    } else if form {
        Some(BodyFormat::FORM)
    } else {
        None
    }
}

/// The format a body is written in: the one asked for, else JSON.
pub open spec fn format_or_default(format: Option<BodyFormat>) -> BodyFormat {
    match format {
        Some(f) => f,
        None => BodyFormat::JSON,
    }
}

/// The content type that goes with a body format.
pub open spec fn content_type_of(format: BodyFormat) -> Seq<char> {
    match format {
        BodyFormat::JSON => "application/json"@,
        BodyFormat::FORM => "application/x-www-form-urlencoded"@,
    }
}

/// Whether a header name is `content-type`, whatever its case.
pub open spec fn names_content_type(name: Seq<char>) -> bool {
    lower(name) == "content-type"@
}

/// Whether the headers hold a content type.
pub open spec fn has_content_type(headers: Seq<(Seq<char>, Seq<char>)>) -> bool {
    exists|i: int| 0 <= i < headers.len() && names_content_type(#[trigger] headers[i].0)
}

/// The headers of a request: the caller's, and after them the content type
/// of the body where there is a body and the caller named none.
pub open spec fn with_content_type(
    headers: Seq<(Seq<char>, Seq<char>)>,
    has_body: bool,
    format: BodyFormat,
) -> Seq<(Seq<char>, Seq<char>)> {
    if has_body && !has_content_type(headers) {
        headers.push(("content-type"@, content_type_of(format)))
    } else {
        headers
    }
}

/// Whether the headers hold a content type.
pub fn holds_content_type(headers: &PairList) -> (r: bool)
    ensures
        r == has_content_type(headers@),
{
    let wanted = chars_of("content-type");
    let mut i: usize = 0;
    while i < headers.pairs.len()
        invariant
            i <= headers.pairs.len(),
            wanted@ == "content-type"@,
            forall|j: int| 0 <= j < i ==> !names_content_type(#[trigger] headers@[j].0),
        decreases headers.pairs.len() - i,
    {
        let name = chars_of(headers.pairs[i].0.as_str());
        if lower_equals(&name, &wanted) {
            assert(names_content_type(headers@[i as int].0));
            return true;
        }
        i = i + 1;
    }
    false
}

/// A resolved request by its views.
pub struct RequestSpecView {
    pub method: Method,
    pub url: Seq<char>,
    pub headers: Seq<(Seq<char>, Seq<char>)>,
    pub body: Option<Seq<u8>>,
}

/// What holds of every resolved request: its headers can go on the wire, a
/// `GET` or `DELETE` carries no body, and a body is not empty and comes with
/// its content type.
pub open spec fn request_wf(request: RequestSpecView) -> bool {
    &&& all_headers_ok(request.headers)
    &&& request.method.bodiless() ==> request.body is None
    &&& request.body matches Some(bytes) ==> bytes.len() > 0 && has_content_type(request.headers)
}

/// The pairs of a list that may be missing: none where it is.
pub open spec fn supplied(list: Option<PairList>) -> Seq<(Seq<char>, Seq<char>)> {
    match list {
        Some(l) => l@,
        None => Seq::empty(),
    }
}

/// The request that a target, pair lists and flags resolve to.
///
/// The URL is composed first, then the method is settled, then the headers
/// are checked; the first of these to fail gives the error. The body is the
/// encoded body fields where there are any.
pub open spec fn resolved(
    target: Seq<char>,
    query: Seq<(Seq<char>, Seq<char>)>,
    headers: Seq<(Seq<char>, Seq<char>)>,
    body: Seq<(Seq<char>, Seq<char>)>,
    method: Option<Method>,
    format: Option<BodyFormat>,
) -> Result<RequestSpecView, ErrorView> {
    let has_body = body.len() > 0;
    let written = format_or_default(format);
    match composed_url(target, query) {
        Err(e) => Err(e),
        Ok(url) => match method_for(method, has_body, format is Some) {
            Err(e) => Err(e),
            Ok(settled) => match checked_headers(headers) {
                Err(e) => Err(e),
                Ok(checked) => Ok(
                    RequestSpecView {
                        method: settled,
                        url,
                        headers: with_content_type(checked, has_body, written),
                        body: if has_body {
                            Some(encode_utf8(body_text(body, written)))
                        } else {
                            None
                        },
                    },
                ),
            },
        },
    }
}

/// Without a method flag, a request without body fields and without a body
/// format is a `GET`, and body fields make it a `POST`; `GET` and `DELETE`
/// refuse body fields.
pub proof fn lemma_method_rules(format_given: bool)
    ensures
        method_for(None, false, false) == Ok::<_, ErrorView>(Method::GET),
        method_for(None, true, format_given) == Ok::<_, ErrorView>(Method::POST),
        method_for(Some(Method::GET), true, format_given) == Err::<Method, _>(
            ErrorView::ConflictingMethodAndBody,
        ),
        method_for(Some(Method::DELETE), true, format_given) == Err::<Method, _>(
            ErrorView::ConflictingMethodAndBody,
        ),
{
}

/// A target resolves to the same request with its scheme supplied
/// beforehand as without.
pub proof fn lemma_resolved_scheme(
    target: Seq<char>,
    query: Seq<(Seq<char>, Seq<char>)>,
    headers: Seq<(Seq<char>, Seq<char>)>,
    body: Seq<(Seq<char>, Seq<char>)>,
    method: Option<Method>,
    format: Option<BodyFormat>,
)
    ensures
        resolved(with_scheme(target), query, headers, body, method, format) == resolved(
            target,
            query,
            headers,
            body,
            method,
            format,
        ),
{
    lemma_composed_url_scheme(target, query);
}

/// A text that is not empty has a UTF-8 form that is not empty.
pub proof fn lemma_encoding_nonempty(text: Seq<char>)
    requires
        text.len() > 0,
    ensures
        encode_utf8(text).len() > 0,
{
    assert(vstd::utf8::encode_scalar(text[0] as u32).len() > 0);
}

/// Every request that resolution gives is well formed.
pub proof fn lemma_resolved_wf(
    target: Seq<char>,
    query: Seq<(Seq<char>, Seq<char>)>,
    headers: Seq<(Seq<char>, Seq<char>)>,
    body: Seq<(Seq<char>, Seq<char>)>,
    method: Option<Method>,
    format: Option<BodyFormat>,
)
    ensures
        resolved(target, query, headers, body, method, format) matches Ok(request) ==> request_wf(
            request,
        ),
{
    if let Ok(request) = resolved(target, query, headers, body, method, format) {
        let written = format_or_default(format);
        if body.len() > 0 {
            lemma_body_text_nonempty(body, written);
            lemma_encoding_nonempty(body_text(body, written));
        }
        lemma_first_bad_header(headers, 0);
        lemma_content_type_header_ok(written);
        lemma_content_type_names_itself();
        if body.len() > 0 && !has_content_type(headers) {
            let all = headers.push(("content-type"@, content_type_of(written)));
            assert(names_content_type(all[headers.len() as int].0));
            assert(all_headers_ok(all)) by {
                assert forall|i: int| 0 <= i < all.len() implies header_ok(#[trigger] all[i]) by {
                    if i < headers.len() {
                        assert(all[i] == headers[i]);
                    }
                }
            }
        }
    }
}

/// The one request of an invocation, resolved and ready to send.
///
/// It is made by [`resolve`] alone and cannot be changed afterwards, so it is
/// well formed wherever it is held; each getter says so.
#[derive(Debug, PartialEq, Eq)]
pub struct RequestSpec {
    method: Method,
    url: String,
    headers: PairList,
    body: Option<Vec<u8>>,
}

impl View for RequestSpec {
    type V = RequestSpecView;

    closed spec fn view(&self) -> RequestSpecView {
        RequestSpecView {
            method: self.method,
            url: self.url@,
            headers: self.headers@,
            body: match self.body {
                Some(bytes) => Some(bytes@),
                None => None,
            },
        }
    }
}

/// Bytes that may be missing, as a byte sequence that may be missing.
pub open spec fn optional_bytes(bytes: Option<&Vec<u8>>) -> Option<Seq<u8>> {
    match bytes {
        Some(b) => Some(b@),
        None => None,
    }
}

impl RequestSpec {
    /// Every request is well formed, wherever it is held.
    #[verifier::type_invariant]
    closed spec fn well_formed(&self) -> bool {
        request_wf(self@)
    }

    /// The method of the request.
    pub fn method(&self) -> (r: Method)
        ensures
            r == self@.method,
            request_wf(self@),
    {
        proof {
            use_type_invariant(self);
        }
        self.method
    }

    /// The URL the request goes to: scheme, host, path and query.
    pub fn url(&self) -> (r: &str)
        ensures
            r@ == self@.url,
            request_wf(self@),
    {
        proof {
            use_type_invariant(self);
        }
        self.url.as_str()
    }

    /// The headers of the request, in order.
    pub fn headers(&self) -> (r: &PairList)
        ensures
            r@ == self@.headers,
            request_wf(self@),
    {
        proof {
            use_type_invariant(self);
        }
        &self.headers
    }

    /// The body of the request, if it has one.
    pub fn body(&self) -> (r: Option<&Vec<u8>>)
        ensures
            optional_bytes(r) == self@.body,
            request_wf(self@),
    {
        proof {
            use_type_invariant(self);
        }
        self.body.as_ref()
    }
}

/// A request or an error, by their views.
pub open spec fn request_or_error(r: Result<RequestSpec, Error>) -> Result<RequestSpecView, ErrorView> {
    match r {
        Ok(request) => Ok(request@),
        Err(e) => Err(e@),
    }
}

/// The content type of a body format, as a header value.
fn content_type_value(format: BodyFormat) -> (r: String)
    ensures
        r@ == content_type_of(format),
{
    match format {
        BodyFormat::JSON => "application/json".to_owned(),
        BodyFormat::FORM => "application/x-www-form-urlencoded".to_owned(),
    }
}

/// The list, or the empty list where there is none.
fn or_empty(list: Option<PairList>) -> (r: PairList)
    ensures
        r@ == supplied(list),
{
    match list {
        Some(l) => l,
        None => PairList::new(),
    }
}

/// Resolves a target, pair lists and flags into the request to send.
///
/// Nothing is sent here, and nothing is half done: the result is a whole
/// request or the first error in the order URL, method, headers.
pub fn resolve(
    target: &str,
    query: Option<PairList>,
    headers: Option<PairList>,
    body: Option<PairList>,
    method: Option<Method>,
    format: Option<BodyFormat>,
) -> (r: Result<RequestSpec, Error>)
    ensures
        request_or_error(r) == resolved(
            target@,
            supplied(query),
            supplied(headers),
            supplied(body),
            method,
            format,
        ),
        r matches Ok(request) ==> request_wf(request@),
{
    let query = or_empty(query);
    let headers = or_empty(headers);
    let body = or_empty(body);
    let has_body = !body.is_empty();
    let written = match format {
        Some(f) => f,
        None => BodyFormat::JSON,
    };
    let url = match compose_url(target, &query) {
        Ok(url) => url,
        Err(e) => { return Err(e); },
    };
    let settled = match resolve_method(method, has_body, format.is_some()) {
        Ok(m) => m,
        Err(e) => { return Err(e); },
    };
    let ghost given = headers@;
    let mut checked = match check_headers(headers) {
        Ok(h) => h,
        Err(e) => { return Err(e); },
    };
    if has_body && !holds_content_type(&checked) {
        let value = content_type_value(written);
        proof {
            lemma_content_type_header_ok(written);
        }
        checked.pairs.push(("content-type".to_owned(), value));
        assert(checked@ =~= given.push(("content-type"@, content_type_of(written))));
        assert(names_content_type(checked@[given.len() as int].0)) by {
            lemma_content_type_names_itself();
        }
    }
    let bytes = if has_body {
        proof {
            lemma_body_text_nonempty(body@, written);
            lemma_encoding_nonempty(body_text(body@, written));
        }
        Some(encode_body(&body, written).as_str().as_bytes_vec())
    } else {
        None
    };
    Ok(RequestSpec { method: settled, url, headers: checked, body: bytes })
}

/// The name `content-type` is in lower case already.
pub proof fn lemma_content_type_names_itself()
    ensures
        names_content_type("content-type"@),
{
    reveal_strlit("content-type");
    assert(lower("content-type"@) =~= "content-type"@);
}

/// The header that states a body's content type can go on the wire.
pub proof fn lemma_content_type_header_ok(format: BodyFormat)
    ensures
        header_ok(("content-type"@, content_type_of(format))),
{
    broadcast use vstd::utf8::is_ascii_chars_encode_utf8;

    reveal_strlit("content-type");
    reveal_strlit("application/json");
    reveal_strlit("application/x-www-form-urlencoded");
    let value = content_type_of(format);
    assert(vstd::utf8::is_ascii_chars(value));
    assert(vstd::utf8::encode_utf8(value).len() == value.len());
}

} // verus!
