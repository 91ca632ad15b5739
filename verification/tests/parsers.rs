use reqr::error::Error;
use reqr::pairs::flatten_pairs;
use reqr::parsers::{body, headers, uri, BodyFormat};

fn pairs_of(list: &reqr::pairs::PairList) -> Vec<(&str, &str)> {
    list.pairs.iter().map(|(k, v)| (k.as_str(), v.as_str())).collect()
}

#[test]
fn flatten_keeps_order() {
    let list = flatten_pairs(&["a", "1", "b", "2", "a", "3"]).unwrap();
    assert_eq!(pairs_of(&list), vec![("a", "1"), ("b", "2"), ("a", "3")]);
}

#[test]
fn flatten_empty_is_empty() {
    let list = flatten_pairs(&[]).unwrap();
    assert_eq!(list.pairs.len(), 0);
}

#[test]
fn flatten_refuses_odd_length() {
    assert_eq!(flatten_pairs(&["a", "1", "b"]), Err(Error::MalformedPairList));
    assert_eq!(flatten_pairs(&["a"]), Err(Error::MalformedPairList));
}

#[test]
fn uri_defaults_scheme() {
    assert_eq!(uri("example.com/x".to_string(), None), Ok("http://example.com/x".to_string()));
    assert_eq!(uri("http://example.com/x".to_string(), None), Ok("http://example.com/x".to_string()));
    assert_eq!(uri("https://example.com/x".to_string(), None), Ok("https://example.com/x".to_string()));
}

#[test]
fn uri_appends_query() {
    assert_eq!(
        uri("api.example.com/items".to_string(), Some(&["page", "1"])),
        Ok("http://api.example.com/items?page=1".to_string())
    );
}

#[test]
fn uri_keeps_existing_query() {
    assert_eq!(
        uri("example.com/x?a=1".to_string(), Some(&["b", "2"])),
        Ok("http://example.com/x?a=1&b=2".to_string())
    );
    assert_eq!(uri("example.com/x?a=1".to_string(), Some(&[])), Ok("http://example.com/x?a=1".to_string()));
    assert_eq!(uri("example.com/x?a=1".to_string(), None), Ok("http://example.com/x?a=1".to_string()));
}

#[test]
fn uri_percent_encodes_query() {
    assert_eq!(
        uri("example.com/".to_string(), Some(&["q", "a b&c", "é", "="])),
        Ok("http://example.com/?q=a+b%26c&%C3%A9=%3D".to_string())
    );
}

#[test]
fn uri_refuses_odd_query() {
    assert_eq!(uri("example.com".to_string(), Some(&["page"])), Err(Error::MalformedPairList));
}

#[test]
fn uri_reports_invalid_url() {
    match uri("http://exa mple.com/".to_string(), None) {
        Err(Error::InvalidURL { target, reason }) => {
            assert_eq!(target, "http://exa mple.com/");
            assert!(!reason.is_empty());
        }
        other => panic!("{:?}", other),
    }
    match uri("http://[::1".to_string(), Some(&["a", "b"])) {
        Err(Error::InvalidURL { target, .. }) => assert_eq!(target, "http://[::1"),
        other => panic!("{:?}", other),
    }
}

#[test]
fn headers_are_kept_as_given() {
    let list = headers(&["X-Token", "abc", "accept", "text/html; q=0.9"]).unwrap();
    assert_eq!(pairs_of(&list), vec![("X-Token", "abc"), ("accept", "text/html; q=0.9")]);
}

#[test]
fn headers_refuse_bad_name() {
    assert_eq!(
        headers(&["ok", "1", "bad name", "2", "also bad\n", "3"]),
        Err(Error::InvalidHeader { name: "bad name".to_string(), value: "2".to_string() })
    );
    assert_eq!(
        headers(&["", "1"]),
        Err(Error::InvalidHeader { name: "".to_string(), value: "1".to_string() })
    );
    assert_eq!(
        headers(&["a\"b", "1"]),
        Err(Error::InvalidHeader { name: "a\"b".to_string(), value: "1".to_string() })
    );
    assert_eq!(
        headers(&["naïve", "1"]),
        Err(Error::InvalidHeader { name: "naïve".to_string(), value: "1".to_string() })
    );
}

#[test]
fn headers_refuse_long_name() {
    let long = "a".repeat(65536);
    assert_eq!(
        headers(&[long.as_str(), "1"]),
        Err(Error::InvalidHeader { name: long.clone(), value: "1".to_string() })
    );
    let fits = "a".repeat(65535);
    assert!(headers(&[fits.as_str(), "1"]).is_ok());
}

#[test]
fn headers_refuse_bad_value() {
    assert_eq!(
        headers(&["a", "line\nbreak"]),
        Err(Error::InvalidHeader { name: "a".to_string(), value: "line\nbreak".to_string() })
    );
    assert_eq!(
        headers(&["a", "del\u{7f}"]),
        Err(Error::InvalidHeader { name: "a".to_string(), value: "del\u{7f}".to_string() })
    );
    assert!(headers(&["a", "tab\tand é"]).is_ok());
}

#[test]
fn headers_refuse_odd_length() {
    assert_eq!(headers(&["a", "1", "b"]), Err(Error::MalformedPairList));
}

#[test]
fn body_json_last_value_wins() {
    assert_eq!(body(&["a", "1", "a", "2"], BodyFormat::JSON), Ok("{\"a\":\"2\"}".to_string()));
}

#[test]
fn body_form_keeps_every_pair() {
    assert_eq!(body(&["a", "1", "a", "2"], BodyFormat::FORM), Ok("a=1&a=2".to_string()));
}

#[test]
fn body_json_keeps_strings() {
    assert_eq!(
        body(&["n", "123", "t", "true", "q", "say \"hi\"\n"], BodyFormat::JSON),
        Ok("{\"n\":\"123\",\"t\":\"true\",\"q\":\"say \\\"hi\\\"\\n\"}".to_string())
    );
}

#[test]
fn body_json_first_place_last_value() {
    assert_eq!(
        body(&["a", "1", "b", "2", "a", "3", "c", "4", "b", "5"], BodyFormat::JSON),
        Ok("{\"a\":\"3\",\"b\":\"5\",\"c\":\"4\"}".to_string())
    );
}

#[test]
fn body_form_percent_encodes() {
    assert_eq!(
        body(&["foo", "bar & baz", "saison", "Été+hiver"], BodyFormat::FORM),
        Ok("foo=bar+%26+baz&saison=%C3%89t%C3%A9%2Bhiver".to_string())
    );
}

#[test]
fn body_of_nothing() {
    assert_eq!(body(&[], BodyFormat::JSON), Ok("{}".to_string()));
    assert_eq!(body(&[], BodyFormat::FORM), Ok("".to_string()));
}

#[test]
fn body_refuses_odd_length() {
    assert_eq!(body(&["a"], BodyFormat::JSON), Err(Error::MalformedPairList));
    assert_eq!(body(&["a", "1", "b"], BodyFormat::FORM), Err(Error::MalformedPairList));
}
