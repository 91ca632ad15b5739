use reqr::encode::{dedup_last_wins, find_key, form_body, form_field_text, frame_json, join, json_body, json_member_text};
use reqr::header::{check_header_name, check_header_value};
use reqr::pairs::flatten_pairs;
use reqr::target::{fits_url_limit, normalize_scheme};
use reqr::text::{chars_of, lower_contains, lower_equals, push_decimal, split_lines, starts_with, string_of, to_lower_char};

fn chars(s: &str) -> Vec<char> {
    s.chars().collect()
}

#[test]
fn characters() {
    assert_eq!(chars_of("aé\u{1F600}"), vec!['a', 'é', '\u{1F600}']);
    assert_eq!(chars_of(""), Vec::<char>::new());
    assert_eq!(string_of(&chars("héllo"), 1, 4), "éll");
    assert_eq!(string_of(&chars("héllo"), 2, 2), "");
}

#[test]
fn prefixes() {
    assert!(starts_with(&chars("http://x"), &chars("http://")));
    assert!(!starts_with(&chars("http:/"), &chars("http://")));
    assert!(!starts_with(&chars("Http://x"), &chars("http://")));
    assert!(starts_with(&chars("abc"), &chars("")));
}

#[test]
fn lower_case() {
    assert_eq!(to_lower_char('A'), 'a');
    assert_eq!(to_lower_char('Z'), 'z');
    assert_eq!(to_lower_char('a'), 'a');
    assert_eq!(to_lower_char('@'), '@');
    assert_eq!(to_lower_char('['), '[');
    assert_eq!(to_lower_char('É'), 'É');
    assert!(lower_equals(&chars("Content-Type"), &chars("content-type")));
    assert!(!lower_equals(&chars("Content-Typ"), &chars("content-type")));
    assert!(!lower_equals(&chars("content-type"), &chars("Content-Type")));
}

#[test]
fn substrings() {
    assert!(lower_contains(&chars("Application/JSON; x"), &chars("json")));
    assert!(lower_contains(&chars("json"), &chars("json")));
    assert!(!lower_contains(&chars("jso"), &chars("json")));
    assert!(!lower_contains(&chars("j-son"), &chars("json")));
    assert!(lower_contains(&chars(""), &chars("")));
    assert!(lower_contains(&chars("abc"), &chars("")));
    assert!(lower_contains(&chars("xxjsojson"), &chars("json")));
}

#[test]
fn decimals() {
    for (n, text) in [(0u16, "0"), (7, "7"), (10, "10"), (200, "200"), (404, "404"), (65535, "65535")] {
        let mut out = String::from(">");
        push_decimal(&mut out, n);
        assert_eq!(out, format!(">{}", text));
    }
}

#[test]
fn lines_are_split_as_the_standard_library_does() {
    assert_eq!(split_lines("a\r\nb\n\nc"), vec!["a", "b", "", "c"]);
    assert_eq!(split_lines("a\n"), vec!["a"]);
    assert_eq!(split_lines("\n"), vec![""]);
    assert_eq!(split_lines(""), Vec::<String>::new());
    assert_eq!(split_lines("a\r"), vec!["a\r"]);
    assert_eq!(split_lines("a\r\r\n"), vec!["a\r"]);
    for text in ["", "\n", "\r\n", "a", "a\nb", "a\n\n", "\n\na", "x\r\ny\r", "é\n\u{1F600}\r\n", "\r", "\r\n\r\n"] {
        let expected: Vec<String> = text.lines().map(|l| l.to_string()).collect();
        assert_eq!(split_lines(text), expected, "{:?}", text);
    }
}

#[test]
fn joins() {
    assert_eq!(join(&vec![], ","), "");
    assert_eq!(join(&vec!["a".to_string()], ","), "a");
    assert_eq!(join(&vec!["a".to_string(), "".to_string(), "b".to_string()], ", "), "a, , b");
}

#[test]
fn json_framing() {
    assert_eq!(json_member_text("\"k\"", "\"v\""), "\"k\":\"v\"");
    assert_eq!(frame_json(&vec![]), "{}");
    assert_eq!(frame_json(&vec!["\"a\":\"1\"".to_string(), "\"b\":\"2\"".to_string()]), "{\"a\":\"1\",\"b\":\"2\"}");
    assert_eq!(form_field_text("a", "b+c"), "a=b+c");
}

#[test]
fn last_wins_mapping() {
    let pairs = flatten_pairs(&["a", "1", "b", "2", "a", "3"]).unwrap();
    let entries = dedup_last_wins(&pairs);
    assert_eq!(entries, flatten_pairs(&["a", "3", "b", "2"]).unwrap());
    assert_eq!(find_key(&pairs.pairs, &"b".to_string()), 1);
    assert_eq!(find_key(&pairs.pairs, &"a".to_string()), 0);
    assert_eq!(find_key(&pairs.pairs, &"c".to_string()), 3);
    assert_eq!(json_body(&pairs), "{\"a\":\"3\",\"b\":\"2\"}");
    assert_eq!(form_body(&pairs), "a=1&b=2&a=3");
}

#[test]
fn json_escapes() {
    let pairs = flatten_pairs(&["k\\", "tab\there", "\u{1}", "é\u{7f}"]).unwrap();
    assert_eq!(json_body(&pairs), "{\"k\\\\\":\"tab\\there\",\"\\u0001\":\"é\u{7f}\"}");
}

#[test]
fn form_escapes() {
    let pairs = flatten_pairs(&["a b", "*-._~", "", ""]).unwrap();
    assert_eq!(form_body(&pairs), "a+b=*-._%7E&=");
}

#[test]
fn scheme_defaults() {
    assert_eq!(normalize_scheme("example.com"), "http://example.com");
    assert_eq!(normalize_scheme("http://example.com"), "http://example.com");
    assert_eq!(normalize_scheme("https://example.com"), "https://example.com");
    assert_eq!(normalize_scheme("HTTP://example.com"), "http://HTTP://example.com");
    assert_eq!(normalize_scheme("ftp://example.com"), "http://ftp://example.com");
    assert_eq!(normalize_scheme(""), "http://");
    assert_eq!(normalize_scheme(&normalize_scheme("example.com")), normalize_scheme("example.com"));
}

#[test]
fn url_limit() {
    let pairs = flatten_pairs(&["ab", "é"]).unwrap();
    assert!(fits_url_limit("http://x", &pairs));
    let big = "é".repeat(16_777_216 - 3);
    assert!(fits_url_limit(&big, &pairs));
    let bigger = "é".repeat(16_777_216 - 2);
    assert!(!fits_url_limit(&bigger, &pairs));
}

#[test]
fn header_names() {
    assert!(check_header_name("content-type"));
    assert!(check_header_name("X-Custom_1"));
    assert!(check_header_name("!#$%&'*+-.^_`|~09azAZ"));
    assert!(!check_header_name(""));
    assert!(!check_header_name("a b"));
    assert!(!check_header_name("a:b"));
    assert!(!check_header_name("a\"b"));
    assert!(!check_header_name("a(b)"));
    assert!(!check_header_name("é"));
    assert!(!check_header_name("a\u{0}"));
    assert!(check_header_name(&"x".repeat(64)));
    assert!(check_header_name(&"x".repeat(65)));
}

#[test]
fn header_values() {
    assert!(check_header_value(""));
    assert!(check_header_value("text/html; q=0.9"));
    assert!(check_header_value("\t"));
    assert!(check_header_value("é"));
    assert!(!check_header_value("a\nb"));
    assert!(!check_header_value("a\rb"));
    assert!(!check_header_value("\u{7f}"));
    assert!(!check_header_value("\u{0}"));
    assert!(!check_header_value("\u{1f}"));
}
