use reqr::error::Error;
use reqr::pairs::{flatten_pairs, PairList};
use reqr::parsers::BodyFormat;
use reqr::request::{resolve, resolve_format, resolve_method, Method, RequestSpec};

fn list(items: &[&str]) -> Option<PairList> {
    Some(flatten_pairs(items).unwrap())
}

fn header_pairs(request: &RequestSpec) -> Vec<(&str, &str)> {
    request.headers().pairs.iter().map(|(k, v)| (k.as_str(), v.as_str())).collect()
}

#[test]
fn no_method_no_body_is_get() {
    assert_eq!(resolve_method(None, false, false), Ok(Method::GET));
    let request = resolve("example.com", None, None, None, None, None).unwrap();
    assert_eq!(request.method(), Method::GET);
    assert_eq!(request.body(), None);
}

#[test]
fn no_method_with_body_is_post() {
    assert_eq!(resolve_method(None, true, false), Ok(Method::POST));
    let request = resolve("example.com", None, None, list(&["a", "1"]), None, None).unwrap();
    assert_eq!(request.method(), Method::POST);
    assert_eq!(request.body(), Some(&b"{\"a\":\"1\"}".to_vec()));
}

#[test]
fn format_flag_alone_is_post() {
    assert_eq!(resolve_method(None, false, true), Ok(Method::POST));
    let request = resolve("example.com", None, None, None, None, Some(BodyFormat::FORM)).unwrap();
    assert_eq!(request.method(), Method::POST);
    assert_eq!(request.body(), None);
    assert_eq!(header_pairs(&request), vec![]);
}

#[test]
fn explicit_get_with_body_conflicts() {
    assert_eq!(resolve_method(Some(Method::GET), true, false), Err(Error::ConflictingMethodAndBody));
    assert_eq!(
        resolve("example.com", None, None, list(&["a", "1"]), Some(Method::GET), None),
        Err(Error::ConflictingMethodAndBody)
    );
}

#[test]
fn explicit_delete_with_body_conflicts() {
    assert_eq!(resolve_method(Some(Method::DELETE), true, true), Err(Error::ConflictingMethodAndBody));
    assert_eq!(
        resolve("example.com", None, None, list(&["a", "1"]), Some(Method::DELETE), Some(BodyFormat::FORM)),
        Err(Error::ConflictingMethodAndBody)
    );
}

#[test]
fn explicit_method_wins() {
    assert_eq!(resolve_method(Some(Method::PUT), true, false), Ok(Method::PUT));
    assert_eq!(resolve_method(Some(Method::POST), false, false), Ok(Method::POST));
    assert_eq!(resolve_method(Some(Method::GET), false, true), Ok(Method::GET));
    assert_eq!(resolve_method(Some(Method::DELETE), false, false), Ok(Method::DELETE));
    let request = resolve("example.com", None, None, list(&["a", "1"]), Some(Method::PUT), None).unwrap();
    assert_eq!(request.method(), Method::PUT);
}

#[test]
fn empty_body_list_is_no_body() {
    let request = resolve("example.com", None, None, list(&[]), Some(Method::GET), None).unwrap();
    assert_eq!(request.method(), Method::GET);
    assert_eq!(request.body(), None);
    assert_eq!(header_pairs(&request), vec![]);
}

#[test]
fn scheme_is_supplied_once() {
    let bare = resolve("example.com/x", None, None, None, None, None).unwrap();
    let full = resolve("http://example.com/x", None, None, None, None, None).unwrap();
    assert_eq!(bare.url(), "http://example.com/x");
    assert_eq!(bare.url(), full.url());
    assert_eq!(bare, full);
    let secure = resolve("https://example.com/x", None, None, None, None, None).unwrap();
    assert_eq!(secure.url(), "https://example.com/x");
}

#[test]
fn query_joins_existing_query() {
    let request = resolve("example.com/x?a=1", list(&["b", "2"]), None, None, None, None).unwrap();
    assert_eq!(request.url(), "http://example.com/x?a=1&b=2");
    assert!(request.url().contains("a=1"));
    assert!(request.url().contains("b=2"));
}

#[test]
fn no_query_pairs_change_nothing() {
    let none = resolve("example.com/x?a=1", None, None, None, None, None).unwrap();
    let empty = resolve("example.com/x?a=1", list(&[]), None, None, None, None).unwrap();
    assert_eq!(none.url(), "http://example.com/x?a=1");
    assert_eq!(empty.url(), "http://example.com/x?a=1");
}

#[test]
fn end_to_end_get() {
    let request = resolve("api.example.com/items", list(&["page", "1"]), None, None, None, None).unwrap();
    assert_eq!(request.method(), Method::GET);
    assert_eq!(request.url(), "http://api.example.com/items?page=1");
    assert_eq!(request.body(), None);
    assert_eq!(header_pairs(&request), vec![]);
}

#[test]
fn uri_is_written_out_by_its_parser() {
    let request = resolve("example.com", None, None, None, None, None).unwrap();
    assert_eq!(request.url(), "http://example.com/");
    let request = resolve("example.com/x#part", None, None, None, None, None).unwrap();
    assert_eq!(request.url(), "http://example.com/x");
}

#[test]
fn json_body_implies_content_type() {
    let request = resolve("example.com", None, list(&["x-a", "1"]), list(&["k", "v"]), None, None).unwrap();
    assert_eq!(header_pairs(&request), vec![("x-a", "1"), ("content-type", "application/json")]);
    assert_eq!(request.body(), Some(&b"{\"k\":\"v\"}".to_vec()));
}

#[test]
fn form_body_implies_content_type() {
    let request =
        resolve("example.com", None, None, list(&["k", "v w", "k", "x"]), None, Some(BodyFormat::FORM)).unwrap();
    assert_eq!(header_pairs(&request), vec![("content-type", "application/x-www-form-urlencoded")]);
    assert_eq!(request.body(), Some(&b"k=v+w&k=x".to_vec()));
    assert_eq!(request.method(), Method::POST);
}

#[test]
fn explicit_content_type_stays() {
    let request = resolve(
        "example.com",
        None,
        list(&["Content-Type", "text/plain"]),
        list(&["k", "v"]),
        None,
        None,
    )
    .unwrap();
    assert_eq!(header_pairs(&request), vec![("Content-Type", "text/plain")]);
}

#[test]
fn body_is_utf8() {
    let request = resolve("example.com", None, None, list(&["k", "é"]), None, None).unwrap();
    assert_eq!(request.body(), Some(&"{\"k\":\"é\"}".as_bytes().to_vec()));
}

#[test]
fn bad_header_refuses_request() {
    assert_eq!(
        resolve("example.com", None, list(&["ok", "1", "not ok", "2"]), None, None, None),
        Err(Error::InvalidHeader { name: "not ok".to_string(), value: "2".to_string() })
    );
}

#[test]
fn errors_come_in_order() {
    match resolve("exa mple.com", None, list(&["not ok", "2"]), list(&["a", "1"]), Some(Method::GET), None) {
        Err(Error::InvalidURL { target, .. }) => assert_eq!(target, "http://exa mple.com"),
        other => panic!("{:?}", other),
    }
    assert_eq!(
        resolve("example.com", None, list(&["not ok", "2"]), list(&["a", "1"]), Some(Method::GET), None),
        Err(Error::ConflictingMethodAndBody)
    );
}

#[test]
fn oversized_url_input_is_refused() {
    let big = "a".repeat(16_777_216);
    match resolve("example.com", list(&["k", big.as_str()]), None, None, None, None) {
        Err(Error::InvalidURL { target, reason }) => {
            assert_eq!(target, "http://example.com");
            assert_eq!(reason, "URL too long");
        }
        other => panic!("{:?}", other.map(|_| ())),
    }
}

#[test]
fn json_flag_wins() {
    assert_eq!(resolve_format(true, true), Some(BodyFormat::JSON));
    assert_eq!(resolve_format(true, false), Some(BodyFormat::JSON));
    assert_eq!(resolve_format(false, true), Some(BodyFormat::FORM));
    assert_eq!(resolve_format(false, false), None);
}

#[test]
fn method_names() {
    assert_eq!(Method::from_name("GET"), Some(Method::GET));
    assert_eq!(Method::from_name("post"), Some(Method::POST));
    assert_eq!(Method::from_name("Put"), Some(Method::PUT));
    assert_eq!(Method::from_name("dElEtE"), Some(Method::DELETE));
    assert_eq!(Method::from_name("PATCH"), None);
    assert_eq!(Method::from_name(""), None);
    assert_eq!(Method::GET.name(), "GET");
    assert_eq!(Method::POST.name(), "POST");
    assert_eq!(Method::PUT.name(), "PUT");
    assert_eq!(Method::DELETE.name(), "DELETE");
}

#[test]
fn error_messages() {
    assert_eq!(Error::MalformedPairList.message(), "malformed pair list: a name came without a value");
    assert_eq!(Error::ConflictingMethodAndBody.message(), "GET and DELETE requests take no body fields");
    assert_eq!(
        Error::InvalidURL { target: "http://x y".to_string(), reason: "invalid uri character".to_string() }
            .message(),
        "invalid URL http://x y: invalid uri character"
    );
    assert_eq!(
        Error::InvalidHeader { name: "a b".to_string(), value: "c".to_string() }.message(),
        "invalid header a b: c"
    );
    assert_eq!(Error::TransportError { cause: "refused".to_string() }.message(), "request failed: refused");
    assert_eq!(
        Error::FileWriteError { path: "/x/y".to_string(), cause: "denied".to_string() }.message(),
        "cannot write /x/y: denied"
    );
}
