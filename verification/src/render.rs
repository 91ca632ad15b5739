//! The response renderer: what a response is shown as, and the text or the
//! bytes that showing it takes. Printing and writing are left to the caller.

use vstd::prelude::*;
use vstd::string::StringExecFns;
use vstd::utf8::{decode_utf8, valid_utf8};
use crate::highlight::{paint_lines, HighlighterContext, LineHighlighter};
use crate::pairs::PairList;
use crate::request::{Method, RequestSpec};
use crate::text::{
    chars_of, contains, decimal, lines_of, lower, lower_contains, lower_equals, push_decimal,
    split_lines, strings_view,
};

verus! {

/// What `serde_json::from_slice` and `serde_json::to_string_pretty` make of
/// bytes, one after the other: the JSON value in them, written out again with
/// indentation; nothing where the bytes are no JSON.
pub uninterp spec fn pretty_json(bytes: Seq<u8>) -> Option<Seq<char>>;

/// What `String::from_utf8_lossy` makes of bytes: their text, with the
/// replacement character where they are no UTF-8.
pub uninterp spec fn lossy_text(bytes: Seq<u8>) -> Seq<char>;

/// A string that may be missing, as a character sequence that may be missing.
pub open spec fn optional_text(s: Option<String>) -> Option<Seq<char>> {
    match s {
        Some(t) => Some(t@),
        None => None,
    }
}

/// Parses bytes with `serde_json::from_slice` into a `serde_json::Value` and
/// writes the value out with `serde_json::to_string_pretty`.
///
/// Trusted: the result is the one named by [`pretty_json`].
#[verifier::external_body]
pub(crate) fn reindent_json(bytes: &[u8]) -> (r: Option<String>)
    ensures
        optional_text(r) == pretty_json(bytes@),
{
    match serde_json::from_slice::<serde_json::Value>(bytes) {
        Ok(value) => serde_json::to_string_pretty(&value).ok(),
        Err(_) => None,
    }
}

/// Calls `String::from_utf8_lossy` and takes the text out of its `Cow`.
///
/// Trusted: the result is the one named by [`lossy_text`], and bytes that are
/// UTF-8 come back as the text they encode.
#[verifier::external_body]
pub(crate) fn decode_lossy(bytes: &[u8]) -> (r: String)
    ensures
        r@ == lossy_text(bytes@),
        valid_utf8(bytes@) ==> r@ == decode_utf8(bytes@),
{
    String::from_utf8_lossy(bytes).into_owned()
}

/// Bytes as text: the text they encode where they are UTF-8, else the text
/// with the replacement character in place of what is not.
pub open spec fn decoded(bytes: Seq<u8>) -> Seq<char> {
    if valid_utf8(bytes) {
        decode_utf8(bytes)
    } else {
        lossy_text(bytes)
    }
}

/// Reads bytes as text, and never fails on them.
pub fn decode_text(bytes: &[u8]) -> (r: String)
    ensures
        r@ == decoded(bytes@),
{
    decode_lossy(bytes)
}

/// The JSON value in the bytes, written out again with indentation; nothing
/// where the bytes are no JSON.
pub fn pretty_print_json(bytes: &[u8]) -> (r: Option<String>)
    ensures
        optional_text(r) == pretty_json(bytes@),
{
    reindent_json(bytes)
}

/// A response as the transport hands it over.
#[derive(Debug, Clone, PartialEq, Eq)]
pub struct ResponseEnvelope {
    pub status_code: u16,
    pub headers: PairList,
    pub body_bytes: Vec<u8>,
}

/// How a response is shown.
#[derive(Debug, Clone, PartialEq, Eq)]
pub enum RenderDecision {
    /// The body goes to the file of this path, byte for byte.
    WriteToFile(String),
    /// The body is JSON: it is indented anew, then highlighted.
    PrettyPrintJSON,
    /// The body is highlighted as the language of this tag.
    HighlightAs(String),
    /// The body is printed as text.
    RawPrint,
}

/// A [`RenderDecision`] with its texts as character sequences.
pub enum RenderDecisionView {
    WriteToFile(Seq<char>),
    PrettyPrintJSON,
    HighlightAs(Seq<char>),
    RawPrint,
}

impl View for RenderDecision {
    type V = RenderDecisionView;

    open spec fn view(&self) -> RenderDecisionView {
        match *self {
            RenderDecision::WriteToFile(path) => RenderDecisionView::WriteToFile(path@),
            RenderDecision::PrettyPrintJSON => RenderDecisionView::PrettyPrintJSON,
            RenderDecision::HighlightAs(tag) => RenderDecisionView::HighlightAs(tag@),
            RenderDecision::RawPrint => RenderDecisionView::RawPrint,
        }
    }
}

/// The content types that are highlighted: what to look for in the content
/// type, and the tag of the language that it stands for. The order counts.
pub open spec fn content_type_table() -> Seq<(Seq<char>, Seq<char>)> {
    seq![
        ("json"@, "json"@),
        ("xml"@, "xml"@),
        ("javascript"@, "js"@),
        ("html"@, "html"@),
        ("css"@, "css"@),
    ]
}

/// The tag of the first row of `table`, from `from` on, whose text stands in
/// `content_type`.
pub open spec fn tag_from(table: Seq<(Seq<char>, Seq<char>)>, content_type: Seq<char>, from: int) -> Option<
    Seq<char>,
>
    decreases table.len() - from,
{
    if from < 0 || from >= table.len() {
        None
    } else if contains(content_type, table[from].0) {
        Some(table[from].1)
    } else {
        tag_from(table, content_type, from + 1)
    }
}

/// The language that a content type stands for, whatever its case: that of
/// the first row of [`content_type_table`] that matches.
pub open spec fn language_tag(content_type: Seq<char>) -> Option<Seq<char>> {
    tag_from(content_type_table(), lower(content_type), 0)
}

/// A table of string pairs as a sequence of pairs of character sequences.
pub open spec fn table_view(table: Seq<(&'static str, &'static str)>) -> Seq<(Seq<char>, Seq<char>)> {
    table.map_values(|row: (&'static str, &'static str)| (row.0@, row.1@))
}

/// The rows of [`content_type_table`].
fn table_rows() -> (rows: Vec<(&'static str, &'static str)>)
    ensures
        table_view(rows@) == content_type_table(),
{
    let mut rows: Vec<(&'static str, &'static str)> = Vec::new();
    rows.push(("json", "json"));
    rows.push(("xml", "xml"));
    rows.push(("javascript", "js"));
    rows.push(("html", "html"));
    rows.push(("css", "css"));
    assert(table_view(rows@) =~= content_type_table());
    rows
}

/// Computes [`language_tag`].
pub fn find_language_tag(content_type: &str) -> (r: Option<String>)
    ensures
        optional_text(r) == language_tag(content_type@),
{
    let rows = table_rows();
    let hay = chars_of(content_type);
    let mut i: usize = 0;
    while i < rows.len()
        invariant
            i <= rows.len(),
            hay@ == content_type@,
            table_view(rows@) == content_type_table(),
            language_tag(content_type@) == tag_from(content_type_table(), lower(hay@), i as int),
        decreases rows.len() - i,
    {
        let needle = chars_of(rows[i].0);
        assert(table_view(rows@)[i as int] == (rows@[i as int].0@, rows@[i as int].1@));
        if lower_contains(&hay, &needle) {
            return Some(rows[i].1.to_owned());
        }
        i = i + 1;
    }
    None
}

/// Where the first header named `name`, whatever its case, stands from
/// `from` on; the number of headers if there is none. `name` is in lower
/// case.
pub open spec fn header_position(headers: Seq<(Seq<char>, Seq<char>)>, name: Seq<char>, from: int) -> int
    decreases headers.len() - from,
{
    if from < 0 || from >= headers.len() {
        headers.len() as int
    } else if lower(headers[from].0) == name {
        from
    } else {
        header_position(headers, name, from + 1)
    }
}

/// The value of the first header named `name`, whatever its case. `name` is
/// in lower case.
pub open spec fn header_value(headers: Seq<(Seq<char>, Seq<char>)>, name: Seq<char>) -> Option<Seq<char>> {
    let at = header_position(headers, name, 0);
    if 0 <= at < headers.len() {
        Some(headers[at].1)
    } else {
        None
    }
}

/// A string slice that may be missing, as a character sequence that may be
/// missing.
pub open spec fn optional_str(s: Option<&str>) -> Option<Seq<char>> {
    match s {
        Some(t) => Some(t@),
        None => None,
    }
}

/// Computes [`header_value`]. `name` is in lower case.
pub fn find_header<'a>(headers: &'a PairList, name: &str) -> (r: Option<&'a str>)
    ensures
        optional_str(r) == header_value(headers@, name@),
{
    let wanted = chars_of(name);
    let mut i: usize = 0;
    while i < headers.pairs.len()
        invariant
            i <= headers.pairs.len(),
            wanted@ == name@,
            header_position(headers@, name@, 0) == header_position(headers@, name@, i as int),
        decreases headers.pairs.len() - i,
    {
        let given = chars_of(headers.pairs[i].0.as_str());
        if lower_equals(&given, &wanted) {
            return Some(headers.pairs[i].1.as_str());
        }
        i = i + 1;
    }
    None
}

impl ResponseEnvelope {
    /// The content type the response states, if it states one.
    pub fn content_type(&self) -> (r: Option<&str>)
        ensures
            optional_str(r) == header_value(self.headers@, "content-type"@),
    {
        find_header(&self.headers, "content-type")
    }
}

/// How a response of this content type is shown, given the output path that
/// was asked for.
///
/// A path settles it whatever the content type. Without one, JSON is
/// pretty-printed, another known language is highlighted, and everything
/// else is printed as it is.
pub open spec fn decision_for(content_type: Option<Seq<char>>, output: Option<Seq<char>>) -> RenderDecisionView {
    match output {
        Some(path) => RenderDecisionView::WriteToFile(path),
        None => match content_type {
            None => RenderDecisionView::RawPrint,
            Some(stated) => match language_tag(stated) {
                None => RenderDecisionView::RawPrint,
                Some(tag) => if tag == "json"@ {
                    RenderDecisionView::PrettyPrintJSON
                } else {
                    RenderDecisionView::HighlightAs(tag)
                },
            },
        },
    }
}

/// Computes [`decision_for`].
pub fn decide(content_type: Option<&str>, output: Option<&str>) -> (r: RenderDecision)
    ensures
        r@ == decision_for(optional_str(content_type), optional_str(output)),
{
    match output {
        Some(path) => RenderDecision::WriteToFile(path.to_owned()),
        None => match content_type {
            None => RenderDecision::RawPrint,
            Some(stated) => match find_language_tag(stated) {
                None => RenderDecision::RawPrint,
                Some(tag) => {
                    let is_json = tag == "json".to_owned();
                    if is_json {
                        RenderDecision::PrettyPrintJSON
                    } else {
                        RenderDecision::HighlightAs(tag)
                    }
                },
            },
        },
    }
}

/// The text of a response that goes to the terminal, and the language it is
/// highlighted as, if any.
pub struct Shown {
    pub text: Seq<char>,
    pub tag: Option<Seq<char>>,
}

/// What goes to the terminal under a decision, given the body indented anew
/// as JSON (if it is JSON) and the body as text.
///
/// A body that claims to be JSON and is none is printed as text, without
/// highlighting.
pub open spec fn shown(decision: RenderDecisionView, pretty: Option<Seq<char>>, raw: Seq<char>) -> Shown {
    match decision {
        RenderDecisionView::PrettyPrintJSON => match pretty {
            Some(text) => Shown { text, tag: Some("json"@) },
            None => Shown { text: raw, tag: None },
        },
        RenderDecisionView::HighlightAs(tag) => Shown { text: raw, tag: Some(tag) },
        _ => Shown { text: raw, tag: None },
    }
}

/// What is done with a response's body.
#[derive(Debug, Clone, PartialEq, Eq)]
pub enum Rendering {
    /// These bytes are written to the file of this path, replacing what it
    /// held.
    File { path: String, bytes: Vec<u8> },
    /// These texts are printed in order, each followed by a line feed.
    Terminal { chunks: Vec<String> },
}

/// The status line of a response to a request.
pub open spec fn status_line_text(status: u16, method: Method, url: Seq<char>) -> Seq<char> {
    "Response: "@ + decimal(status as nat) + " ("@ + method.name_text() + " "@ + url + ")"@
}

/// The status line of a response: its status code, and the method and URL
/// of the request it answers.
pub fn status_line(request: &RequestSpec, response: &ResponseEnvelope) -> (r: String)
    ensures
        r@ == status_line_text(response.status_code, request@.method, request@.url),
{
    let mut r = "Response: ".to_owned();
    push_decimal(&mut r, response.status_code);
    r.append(" (");
    r.append(request.method().name());
    r.append(" ");
    r.append(request.url());
    r.append(")");
    r
}

/// A copy of the bytes.
fn copy_bytes(bytes: &Vec<u8>) -> (r: Vec<u8>)
    ensures
        r@ == bytes@,
{
    let mut r: Vec<u8> = Vec::new();
    let mut i: usize = 0;
    while i < bytes.len()
        invariant
            i <= bytes.len(),
            r@ == bytes@.take(i as int),
        decreases bytes.len() - i,
    {
        r.push(bytes[i]);
        i = i + 1;
    }
    assert(bytes@.take(bytes@.len() as int) =~= bytes@);
    r
}

/// What goes to the terminal fits what is shown: the text as one piece where
/// it is not highlighted, else one piece per line, and the lines themselves
/// where there is no highlighter for the language.
pub open spec fn chunks_fit(chunks: Seq<Seq<char>>, s: Shown, painted: bool) -> bool {
    match s.tag {
        Some(tag) => chunks.len() == lines_of(s.text).len() && (!painted ==> chunks == lines_of(
            s.text,
        )),
        None => chunks == seq![s.text],
    }
}

/// The texts for the terminal under a decision that sends the body there:
/// the lines of the text, painted, where it is highlighted; else the text
/// as one piece. `highlighter` is the one for the language of the decision,
/// if there is one.
pub fn terminal_chunks(
    decision: &RenderDecision,
    pretty: Option<String>,
    raw: String,
    highlighter: Option<LineHighlighter<'_>>,
) -> (chunks: Vec<String>)
    ensures
        chunks_fit(
            strings_view(chunks@),
            shown(decision@, optional_text(pretty), raw@),
            highlighter is Some,
        ),
{
    match decision {
        RenderDecision::PrettyPrintJSON => match pretty {
            Some(text) => {
                let lines = split_lines(text.as_str());
                assert(strings_view(lines@).len() == lines@.len());
                let painted = paint_lines(highlighter, lines);
                assert(strings_view(painted@).len() == painted@.len());
                painted
            },
            None => whole(raw),
        },
        RenderDecision::HighlightAs(_) => {
            let lines = split_lines(raw.as_str());
            assert(strings_view(lines@).len() == lines@.len());
            let painted = paint_lines(highlighter, lines);
            assert(strings_view(painted@).len() == painted@.len());
            painted
        },
        _ => whole(raw),
    }
}

/// A text as the one piece to print.
fn whole(text: String) -> (chunks: Vec<String>)
    ensures
        strings_view(chunks@) == seq![text@],
{
    let mut chunks: Vec<String> = Vec::new();
    chunks.push(text);
    assert(strings_view(chunks@) =~= seq![text@]);
    chunks
}

/// Whether a rendering is the file of this path with these bytes.
pub open spec fn writes_file(rendering: Rendering, path: Seq<char>, body: Seq<u8>) -> bool {
    match rendering {
        Rendering::File { path: p, bytes } => p@ == path && bytes@ == body,
        Rendering::Terminal { .. } => false,
    }
}

/// Whether a rendering goes to the terminal, in pieces that fit what is shown.
pub open spec fn prints(rendering: Rendering, s: Shown) -> bool {
    match rendering {
        Rendering::File { .. } => false,
        Rendering::Terminal { chunks } => chunks_fit(strings_view(chunks@), s, true),
    }
}

/// What rendering a body comes to under a decision.
///
/// To a file the body goes as it is. Else it goes to the terminal as
/// [`shown`] says: in one piece where it is not highlighted, in as many
/// pieces as it has lines where it is.
pub open spec fn body_fits(rendering: Rendering, decision: RenderDecisionView, body: Seq<u8>) -> bool {
    match decision {
        RenderDecisionView::WriteToFile(path) => writes_file(rendering, path, body),
        other => prints(rendering, shown(other, pretty_json(body), decoded(body))),
    }
}

/// What rendering a response's body comes to, given its content type and the
/// output path that was asked for.
pub open spec fn rendering_fits(
    rendering: Rendering,
    content_type: Option<Seq<char>>,
    output: Option<Seq<char>>,
    body: Seq<u8>,
) -> bool {
    body_fits(rendering, decision_for(content_type, output), body)
}

/// With an output path, what is written is the body, byte for byte, whatever
/// the content type says.
pub proof fn lemma_output_path_writes_body(
    rendering: Rendering,
    content_type: Option<Seq<char>>,
    path: Seq<char>,
    body: Seq<u8>,
)
    requires
        rendering_fits(rendering, content_type, Some(path), body),
    ensures
        writes_file(rendering, path, body),
{
}

/// A response made ready to show: its status line, which comes first
/// whatever is done with the body, and what is done with the body.
#[derive(Debug, Clone, PartialEq, Eq)]
pub struct Rendered {
    pub status_line: String,
    pub body: Rendering,
}

/// Prepares the body of a response under a decision.
pub fn render_body(decision: RenderDecision, body: &Vec<u8>, highlighter: &HighlighterContext) -> (r:
    Rendering)
    ensures
        body_fits(r, decision@, body@),
{
    match decision {
        RenderDecision::WriteToFile(path) => Rendering::File { path, bytes: copy_bytes(body) },
        RenderDecision::PrettyPrintJSON => {
            let pretty = pretty_print_json(body.as_slice());
            let raw = decode_text(body.as_slice());
            let lines = highlighter.open("json");
            let chunks = terminal_chunks(&decision, pretty, raw, lines);
            Rendering::Terminal { chunks }
        },
        RenderDecision::HighlightAs(ref tag) => {
            let raw = decode_text(body.as_slice());
            let lines = highlighter.open(tag.as_str());
            let chunks = terminal_chunks(&decision, None, raw, lines);
            Rendering::Terminal { chunks }
        },
        RenderDecision::RawPrint => {
            let raw = decode_text(body.as_slice());
            let chunks = terminal_chunks(&decision, None, raw, None);
            Rendering::Terminal { chunks }
        },
    }
}

/// Renders the response to a request: states its status line, decides how
/// the body is shown, and prepares the bytes for the file or the texts for
/// the terminal.
pub fn render(
    request: &RequestSpec,
    response: &ResponseEnvelope,
    output: Option<&str>,
    highlighter: &HighlighterContext,
) -> (r: Rendered)
    ensures
        r.status_line@ == status_line_text(response.status_code, request@.method, request@.url),
        rendering_fits(
            r.body,
            header_value(response.headers@, "content-type"@),
            optional_str(output),
            response.body_bytes@,
        ),
{
    let decision = decide(response.content_type(), output);
    Rendered {
        status_line: status_line(request, response),
        body: render_body(decision, &response.body_bytes, highlighter),
    }
}

} // verus!
