use reqr::header::{check_header_name, check_header_value};
use reqr::pairs::flatten_pairs;
use reqr::parsers::{body, headers, uri, BodyFormat};
use reqr::render::{decode_text, pretty_print_json};

fn token_byte(b: u8) -> bool {
    b.is_ascii_alphanumeric() || b"!#$%&'*+-.^_`|~".contains(&b)
}

#[test]
fn header_type_takes_tokens_and_the_quote() {
    for b in 0u8..=255 {
        let taken = hyper::header::HeaderName::from_bytes(&[b]).is_ok();
        assert_eq!(taken, token_byte(b) || b == b'"', "byte {}", b);
        let long = vec![b; 70];
        let taken = hyper::header::HeaderName::from_bytes(&long).is_ok();
        assert_eq!(taken, token_byte(b) || b == b'"', "byte {} repeated", b);
    }
    assert!(hyper::header::HeaderName::from_bytes(b"").is_err());
    assert!(hyper::header::HeaderName::from_bytes(&vec![b'a'; 65535]).is_ok());
}

#[test]
fn header_names_are_tokens() {
    for b in 0u8..=127 {
        let name = (b as char).to_string();
        assert_eq!(check_header_name(&name), token_byte(b), "byte {}", b);
        let inside = format!("a{}b", b as char);
        assert_eq!(check_header_name(&inside), token_byte(b), "byte {} inside", b);
    }
    for c in ['\u{80}', 'é', '\u{ff}', '\u{2603}', '\u{1F600}'] {
        assert!(!check_header_name(&c.to_string()));
    }
}

#[test]
fn header_type_takes_value_bytes() {
    for b in 0u8..=255 {
        let taken = hyper::header::HeaderValue::from_bytes(&[b'a', b, b'z']).is_ok();
        assert_eq!(taken, b == 9 || (b >= 32 && b != 127), "byte {}", b);
    }
    assert!(hyper::header::HeaderValue::from_bytes(b"").is_ok());
}

#[test]
fn header_values_follow_their_bytes() {
    for b in 0u8..=127 {
        let value = format!("a{}z", b as char);
        assert_eq!(check_header_value(&value), b == 9 || (b >= 32 && b != 127), "byte {}", b);
    }
    for c in ['\u{80}', 'é', '\u{ff}', '\u{2603}', '\u{1F600}'] {
        assert!(check_header_value(&c.to_string()));
    }
}

#[test]
fn odd_targets_end_in_a_verdict() {
    let targets = [
        "", " ", ":", "/", "//", "?", "#", "*", "a", "http://", "https://", "http:///", "http://?", "http://#",
        "http://[", "http://[::1]", "http://[::1", "http://a:b@c/", "http://a:99999/", "http://a:/", "http://a/%",
        "http://a/%zz", "http://a b/", "http://a/\u{0}", "http://é.example/", "http://xn--/", "http://a..b/",
        "http://0x7f.1/", "http://1.2.3.4.5/", "http://999.999.999.999/", "http://a/?q#f#g", "http://a/#",
        "http://a?", "http://a?#", "\thttp://a/\n", "http://a\\b/", "http://%41/", "http://a/\u{1F600}",
        "ftp://a/", "mailto:a@b", "data:,x", "file:///x", "http://a/b/../c/./d", "http://user@/", "http://@/",
        "http://a:80:80/", "http://-/", "http://_/", "http://a/ b", "http://a/\"<>`{}", "http://\u{ad}/",
    ];
    let queries: [&[&str]; 4] = [&[], &["a", "b"], &["", ""], &["é #&=+%", "\u{0}\n\u{1F600}"]];
    for target in targets {
        let _ = uri(target.to_string(), None);
        for query in queries {
            let _ = uri(target.to_string(), Some(query));
        }
    }
    let long = format!("http://a/{}", "x".repeat(70_000));
    assert!(uri(long.clone(), None).is_err());
    assert!(uri(long, Some(&["a", "b"])).is_err());
}

#[test]
fn fragment_survives_an_added_query_until_the_uri_drops_it() {
    assert_eq!(uri("example.com/x#part".to_string(), Some(&["a", "b"])), Ok("http://example.com/x?a=b".to_string()));
    assert_eq!(
        uri("example.com/x?q=1#part".to_string(), Some(&["a", "b"])),
        Ok("http://example.com/x?q=1&a=b".to_string())
    );
    assert_eq!(uri("Example.COM:80/x".to_string(), Some(&["a", "b"])), Ok("http://example.com/x?a=b".to_string()));
}

#[test]
fn odd_bodies_are_encoded() {
    let items = ["", "", "\u{0}", "\u{1f}", "\"\\/", "\u{7f}\u{80}", "\u{2028}", "\u{1F600}", "a", "\r\n\t"];
    assert_eq!(
        body(&items, BodyFormat::JSON),
        Ok("{\"\":\"\",\"\\u0000\":\"\\u001f\",\"\\\"\\\\/\":\"\u{7f}\u{80}\",\"\u{2028}\":\"\u{1F600}\",\"a\":\"\\r\\n\\t\"}"
            .to_string())
    );
    assert_eq!(
        body(&items, BodyFormat::FORM),
        Ok("=&%00=%1F&%22%5C%2F=%7F%C2%80&%E2%80%A8=%F0%9F%98%80&a=%0D%0A%09".to_string())
    );
}

#[test]
fn json_object_is_what_the_serialiser_writes_for_a_map() {
    let pairs = flatten_pairs(&["b", "1", "a", "x\"y", "b", "2"]).unwrap();
    let text = reqr::encode::json_body(&pairs);
    let value: serde_json::Value = serde_json::from_str(&text).unwrap();
    let object = value.as_object().unwrap();
    assert_eq!(object.len(), 2);
    assert_eq!(object.get("a").and_then(|v| v.as_str()), Some("x\"y"));
    assert_eq!(object.get("b").and_then(|v| v.as_str()), Some("2"));
    let mut map = std::collections::BTreeMap::new();
    map.insert("b", "2");
    assert_eq!(reqr::encode::json_body(&flatten_pairs(&["b", "1", "b", "2"]).unwrap()), serde_json::to_string(&map).unwrap());
}

#[test]
fn form_body_is_what_the_serialiser_writes() {
    let items = ["a b", "1&2", "é", "", "a b", "=+"];
    let mut serializer = url::form_urlencoded::Serializer::new(String::new());
    for pair in items.chunks(2) {
        serializer.append_pair(pair[0], pair[1]);
    }
    assert_eq!(body(&items, BodyFormat::FORM), Ok(serializer.finish()));
}

#[test]
fn valid_text_is_decoded_as_it_is() {
    assert_eq!(decode_text("plain é \u{1F600}".as_bytes()), "plain é \u{1F600}");
    assert_eq!(decode_text(b""), "");
    assert_eq!(decode_text(b"\xe2\x28\xa1"), "\u{fffd}(\u{fffd}");
    assert_eq!(decode_text(b"\xf0\x9f\x98"), "\u{fffd}");
}

#[test]
fn json_is_read_and_indented() {
    assert_eq!(pretty_print_json(b"{\"b\":1,\"a\":2}"), Some("{\n  \"a\": 2,\n  \"b\": 1\n}".to_string()));
    assert_eq!(pretty_print_json(b" [1, \"x\", null] "), Some("[\n  1,\n  \"x\",\n  null\n]".to_string()));
    assert_eq!(pretty_print_json(b"3"), Some("3".to_string()));
    assert_eq!(pretty_print_json(b"{bad"), None);
    assert_eq!(pretty_print_json(b""), None);
    assert_eq!(pretty_print_json(b"{} trailing"), None);
    assert_eq!(pretty_print_json(b"\"\xff\""), None);
}

#[test]
fn headers_of_any_bytes_end_in_a_verdict() {
    let names = ["", "a", "A-b", "a b", "\u{0}", "é", "a\"", "te", "content-type"];
    let values = ["", "v", "\t", "\n", "é", "\u{7f}", "a\u{0}b"];
    for name in names {
        for value in values {
            let expected = check_header_name(name) && check_header_value(value);
            assert_eq!(headers(&[name, value]).is_ok(), expected, "{:?}: {:?}", name, value);
        }
    }
}
