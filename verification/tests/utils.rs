use httpx_transport::errors::ErrorKind;
use httpx_transport::extensions::{DynamicValue, ExtensionValue, TimeoutSetting};
use httpx_transport::native::SURE_HEADERS;
use httpx_transport::response::ResponseBody;
use reqwest::header::{HeaderMap, HeaderName, HeaderValue};
use httpx_transport::utils::{
    convert_headers_to_python, create_response_object, extract_extensions, extract_headers,
    extract_method, extract_timeout_from_extensions, extract_url, is_streaming_requested,
    url_outcome, ExtensionsInput, HeaderInput,
};
use httpx_transport::native::RequestUrl;

fn text(s: &str) -> String {
    String::from(s)
}

fn pairs_of(headers: &HeaderMap) -> Vec<(String, Vec<u8>)> {
    headers
        .iter()
        .map(|(name, value)| (name.as_str().to_owned(), value.as_bytes().to_vec()))
        .collect()
}

fn entries(input: &HeaderInput) -> Vec<(String, Vec<u8>)> {
    match extract_headers(input) {
        Ok(headers) => pairs_of(&headers),
        Err(err) => panic!("headers were rejected: {}", err.to_string()),
    }
}

fn received(pairs: Vec<(&str, Vec<u8>)>) -> HeaderMap {
    let mut headers = HeaderMap::new();
    for (name, value) in pairs {
        headers.append(
            HeaderName::from_bytes(name.as_bytes()).expect("a header name"),
            HeaderValue::from_bytes(&value).expect("a header value"),
        );
    }
    headers
}

fn rejected(input: &HeaderInput) -> (ErrorKind, String) {
    match extract_headers(input) {
        Ok(_) => panic!("headers were accepted"),
        Err(err) => (err.kind(), text(err.detail())),
    }
}

fn extensions_of(pairs: Vec<(&str, DynamicValue)>) -> ExtensionsInput {
    ExtensionsInput::Mapping(pairs.into_iter().map(|(key, value)| (text(key), value)).collect())
}

#[test]
fn standard_methods_are_accepted_as_given() {
    for method in ["GET", "PUT", "POST", "HEAD", "PATCH", "TRACE", "DELETE", "OPTIONS", "CONNECT"] {
        let parsed = extract_method(method).ok().expect("a standard method");
        assert_eq!(parsed.as_str(), method);
    }
}

#[test]
fn extension_methods_are_accepted_as_given() {
    for method in ["PROPFIND", "get", "M-SEARCH", "A", "X!*+-.^_`|~09az", "AVERYLONGMETHODNAMEOFMORETHANFIFTEEN"] {
        let parsed = extract_method(method).ok().expect("a token");
        assert_eq!(parsed.as_str(), method);
    }
}

#[test]
fn texts_that_are_no_method_are_local_protocol_errors() {
    for method in ["", "GET ", "G T", "GE\tT", "GÉT", "GET/", "A#B", "A$B", "A%B", "A&B", "A'B", "A\"B", "(GET)", "A:B"] {
        let err = extract_method(method).err().expect("no token");
        assert_eq!(err.kind(), ErrorKind::LocalProtocolError);
        assert_eq!(err.detail(), format!("Invalid HTTP method: {}", method));
    }
}

#[test]
fn absolute_urls_are_accepted_and_serialized() {
    let url = extract_url("https://example.com/a?b=c").ok().expect("an absolute URL");
    assert_eq!(url.as_str(), "https://example.com/a?b=c");
    let url = extract_url("HTTP://EXAMPLE.com").ok().expect("an absolute URL");
    assert_eq!(url.as_str(), "http://example.com/");
    let url = extract_url("http://127.0.0.1:8000/a b").ok().expect("an absolute URL");
    assert_eq!(url.as_str(), "http://127.0.0.1:8000/a%20b");
}

#[test]
fn malformed_urls_are_invalid_url_with_the_parsers_reason() {
    let err = extract_url("not a url").err().expect("a relative text");
    assert_eq!(err.kind(), ErrorKind::InvalidURL);
    assert_eq!(err.detail(), "relative URL without a base");
    assert_eq!(err.to_string(), "Invalid URL: relative URL without a base");
    let err = extract_url("").err().expect("an empty text");
    assert_eq!(err.kind(), ErrorKind::InvalidURL);
    assert_eq!(err.detail(), "relative URL without a base");
    let err = extract_url("http://").err().expect("no host");
    assert_eq!(err.kind(), ErrorKind::InvalidURL);
    assert_eq!(err.detail(), "empty host");
    let err = extract_url("http://example.com:99999/").err().expect("a bad port");
    assert_eq!(err.kind(), ErrorKind::InvalidURL);
    assert_eq!(err.detail(), "invalid port number");
}

#[test]
fn absent_and_foreign_headers_give_no_headers() {
    assert!(entries(&HeaderInput::Absent).is_empty());
    assert!(entries(&HeaderInput::Other).is_empty());
    assert!(entries(&HeaderInput::Mapping(vec![])).is_empty());
    assert!(entries(&HeaderInput::Pairs(vec![])).is_empty());
}

#[test]
fn header_names_are_lowercased_and_values_become_bytes() {
    let input = HeaderInput::Pairs(vec![
        vec![text("Content-Type"), text("text/plain")],
        vec![text("X-Custom"), text("Ünï")],
    ]);
    assert_eq!(
        entries(&input),
        vec![
            (text("content-type"), b"text/plain".to_vec()),
            (text("x-custom"), "Ünï".as_bytes().to_vec()),
        ]
    );
}

#[test]
fn header_pairs_keep_their_order() {
    let input = HeaderInput::Pairs(vec![
        vec![text("zeta"), text("1")],
        vec![text("alpha"), text("2")],
        vec![text("Mid"), text("3")],
        vec![text("beta"), text("")],
    ]);
    assert_eq!(
        entries(&input),
        vec![
            (text("zeta"), b"1".to_vec()),
            (text("alpha"), b"2".to_vec()),
            (text("mid"), b"3".to_vec()),
            (text("beta"), b"".to_vec()),
        ]
    );
}

#[test]
fn later_header_of_the_same_name_wins_in_a_mapping() {
    let input = HeaderInput::Mapping(vec![
        (text("Accept"), text("first")),
        (text("host"), text("example.com")),
        (text("accept"), text("second")),
        (text("ACCEPT"), text("third")),
    ]);
    assert_eq!(
        entries(&input),
        vec![(text("accept"), b"third".to_vec()), (text("host"), b"example.com".to_vec())]
    );
    let headers = extract_headers(&input).ok().expect("valid headers");
    assert_eq!(headers.len(), 2);
    assert_eq!(headers.get("accept").map(|value| value.as_bytes()), Some(&b"third"[..]));
    assert_eq!(headers.get("host").map(|value| value.as_bytes()), Some(&b"example.com"[..]));
    assert!(headers.get("content-type").is_none());
}

#[test]
fn later_header_of_the_same_name_wins_in_a_list() {
    let input = HeaderInput::Pairs(vec![
        vec![text("a"), text("1")],
        vec![text("b"), text("2")],
        vec![text("A"), text("3")],
    ]);
    assert_eq!(entries(&input), vec![(text("a"), b"3".to_vec()), (text("b"), b"2".to_vec())]);
}

#[test]
fn header_tuple_of_the_wrong_size_fails_the_whole_translation() {
    for item in [vec![], vec![text("a")], vec![text("a"), text("b"), text("c")]] {
        let input = HeaderInput::Pairs(vec![vec![text("ok"), text("1")], item]);
        let (kind, detail) = rejected(&input);
        assert_eq!(kind, ErrorKind::LocalProtocolError);
        assert_eq!(detail, "Header tuples must have exactly 2 elements");
    }
}

#[test]
fn invalid_header_name_is_a_local_protocol_error() {
    let long = "a".repeat(65536);
    for name in ["", "bad name", "bad:name", "näme", "a(b)", "a,b", "a/b", "a@b", "a[b]", "a{b}", "a\nb", long.as_str()] {
        let input = HeaderInput::Mapping(vec![(text(name), text("value"))]);
        let (kind, detail) = rejected(&input);
        assert_eq!(kind, ErrorKind::LocalProtocolError);
        assert_eq!(detail, "Invalid header name: invalid HTTP header name");
    }
}

#[test]
fn every_header_name_character_is_accepted() {
    let name = "!\"#$%&'*+-.0123456789ABCDEFGHIJKLMNOPQRSTUVWXYZ^_`abcdefghijklmnopqrstuvwxyz|~";
    let input = HeaderInput::Mapping(vec![(text(name), text("v"))]);
    let lowered = "!\"#$%&'*+-.0123456789abcdefghijklmnopqrstuvwxyz^_`abcdefghijklmnopqrstuvwxyz|~";
    assert_eq!(entries(&input), vec![(text(lowered), b"v".to_vec())]);
    let longest = "B".repeat(65535);
    let input = HeaderInput::Mapping(vec![(longest, text("v"))]);
    assert_eq!(entries(&input), vec![("b".repeat(65535), b"v".to_vec())]);
}

#[test]
fn invalid_header_value_is_a_local_protocol_error() {
    for value in ["line\nbreak", "carriage\rreturn", "nul\0", "del\u{7f}", "\u{1f}"] {
        let input = HeaderInput::Mapping(vec![(text("x"), text(value))]);
        let (kind, detail) = rejected(&input);
        assert_eq!(kind, ErrorKind::LocalProtocolError);
        assert_eq!(detail, "Invalid header value: failed to parse header value");
    }
    let input = HeaderInput::Mapping(vec![(text("x"), text("tab\tand space ~ and \u{80} are fine"))]);
    assert_eq!(entries(&input).len(), 1);
}

#[test]
fn first_header_fault_decides_the_error() {
    let input = HeaderInput::Pairs(vec![
        vec![text("good"), text("1")],
        vec![text("bad name"), text("bad\nvalue")],
        vec![text("only-one")],
    ]);
    let (_, detail) = rejected(&input);
    assert_eq!(detail, "Invalid header name: invalid HTTP header name");
    let input = HeaderInput::Pairs(vec![
        vec![text("good"), text("bad\nvalue")],
        vec![text("bad name"), text("1")],
    ]);
    let (_, detail) = rejected(&input);
    assert_eq!(detail, "Invalid header value: failed to parse header value");
}

fn numbered_headers(count: usize) -> HeaderInput {
    HeaderInput::Pairs((0..count).map(|i| vec![format!("X-{}", i), format!("v{}", i)]).collect())
}

#[test]
fn thousands_of_valid_headers_are_translated_in_order() {
    assert_eq!(SURE_HEADERS, 6554);
    for count in [4096usize, 4097, 5000, SURE_HEADERS] {
        let translated = entries(&numbered_headers(count));
        assert_eq!(translated.len(), count);
        for (i, (name, value)) in translated.iter().enumerate() {
            assert_eq!(name, &format!("x-{}", i));
            assert_eq!(value, format!("v{}", i).as_bytes());
        }
    }
}

#[test]
fn thousands_of_headers_under_one_name_leave_the_last() {
    let repeated = HeaderInput::Mapping(
        (0..10_000).map(|i| (text(if i % 2 == 0 { "Same" } else { "same" }), format!("{}", i))).collect(),
    );
    assert_eq!(entries(&repeated), vec![(text("same"), b"9999".to_vec())]);
}

#[test]
fn refusal_of_the_header_map_is_a_local_protocol_error() {
    let most = 24576;
    let translated = entries(&numbered_headers(most));
    assert_eq!(translated.len(), most);
    assert_eq!(translated[most - 1], (format!("x-{}", most - 1), format!("v{}", most - 1).into_bytes()));
    let (kind, detail) = rejected(&numbered_headers(most + 1));
    assert_eq!(kind, ErrorKind::LocalProtocolError);
    assert_eq!(detail, "Too many headers: max size reached");
    let mut faulty = match numbered_headers(most + 1) {
        HeaderInput::Pairs(items) => items,
        _ => unreachable!(),
    };
    faulty[7] = vec![text("bad name"), text("v")];
    let (_, detail) = rejected(&HeaderInput::Pairs(faulty));
    assert_eq!(detail, "Invalid header name: invalid HTTP header name");
}

#[test]
fn response_headers_become_pairs_of_texts_in_order() {
    let headers = received(vec![
        ("content-type", b"text/html".to_vec()),
        ("x-first", b"a=1".to_vec()),
        ("x-second", b"b=2\t;".to_vec()),
        ("empty", b"".to_vec()),
    ]);
    let converted = convert_headers_to_python(&headers).ok().expect("visible values");
    assert_eq!(
        converted,
        vec![
            (text("content-type"), text("text/html")),
            (text("x-first"), text("a=1")),
            (text("x-second"), text("b=2\t;")),
            (text("empty"), text("")),
        ]
    );
}

#[test]
fn repeated_response_header_is_handed_on_once_for_each_value() {
    let headers = received(vec![("set-cookie", b"a=1".to_vec()), ("server", b"s".to_vec()), ("set-cookie", b"b=2".to_vec())]);
    let converted = convert_headers_to_python(&headers).ok().expect("visible values");
    assert_eq!(
        converted,
        vec![
            (text("set-cookie"), text("a=1")),
            (text("set-cookie"), text("b=2")),
            (text("server"), text("s")),
        ]
    );
}

#[test]
fn response_header_value_that_is_not_visible_is_a_remote_protocol_error() {
    for bad in [vec![0x80u8], vec![b'a', 0xe9], vec![b'o', b'k', 0xff]] {
        let headers = received(vec![("fine", b"ok".to_vec()), ("x", bad)]);
        let err = convert_headers_to_python(&headers).err().expect("an opaque value");
        assert_eq!(err.kind(), ErrorKind::RemoteProtocolError);
        assert_eq!(err.detail(), "Invalid header value: failed to convert header to a str");
    }
}

#[test]
fn extension_values_are_coerced_to_scalars() {
    let input = extensions_of(vec![
        ("none", DynamicValue::Nothing),
        ("flag", DynamicValue::Bool(true)),
        ("count", DynamicValue::Int(-7)),
        ("ratio", DynamicValue::Float(2.5f64.to_bits())),
        ("nan", DynamicValue::Float(f64::NAN.to_bits())),
        ("inf", DynamicValue::Float(f64::INFINITY.to_bits())),
        ("ninf", DynamicValue::Float(f64::NEG_INFINITY.to_bits())),
        ("name", DynamicValue::Text(text("x"))),
        ("other", DynamicValue::Other(text("[1, 2]"))),
    ]);
    let extensions = extract_extensions(&input);
    assert_eq!(extensions.len(), 9);
    assert!(matches!(extensions.get("none"), Some(ExtensionValue::Null)));
    assert!(matches!(extensions.get("flag"), Some(ExtensionValue::Bool(true))));
    assert!(matches!(extensions.get("count"), Some(ExtensionValue::Int(-7))));
    assert!(matches!(extensions.get("ratio"), Some(ExtensionValue::Float(bits)) if f64::from_bits(*bits) == 2.5));
    assert!(matches!(extensions.get("nan"), Some(ExtensionValue::Null)));
    assert!(matches!(extensions.get("inf"), Some(ExtensionValue::Null)));
    assert!(matches!(extensions.get("ninf"), Some(ExtensionValue::Null)));
    assert!(matches!(extensions.get("name"), Some(ExtensionValue::Text(s)) if s == "x"));
    assert!(matches!(extensions.get("other"), Some(ExtensionValue::Text(s)) if s == "[1, 2]"));
    assert!(extensions.get("missing").is_none());
}

#[test]
fn absent_and_foreign_extensions_give_no_extensions() {
    assert_eq!(extract_extensions(&ExtensionsInput::Absent).len(), 0);
    assert_eq!(extract_extensions(&ExtensionsInput::Other).len(), 0);
}

#[test]
fn later_extension_of_the_same_key_wins() {
    let input = extensions_of(vec![
        ("a", DynamicValue::Int(1)),
        ("b", DynamicValue::Int(2)),
        ("a", DynamicValue::Int(3)),
    ]);
    let extensions = extract_extensions(&input);
    assert_eq!(extensions.len(), 2);
    assert!(matches!(extensions.get("a"), Some(ExtensionValue::Int(3))));
    let keys: Vec<&str> = extensions.entries().iter().map(|pair| pair.0.as_str()).collect();
    assert_eq!(keys, vec!["a", "b"]);
}

#[test]
fn timeout_is_taken_only_from_a_number_greater_than_zero() {
    let timeout = |value: DynamicValue| {
        extract_timeout_from_extensions(&extract_extensions(&extensions_of(vec![("timeout", value)])))
    };
    assert_eq!(timeout(DynamicValue::Float(5.0f64.to_bits())), Some(TimeoutSetting::FloatSeconds(5.0f64.to_bits())));
    assert_eq!(timeout(DynamicValue::Float(0.25f64.to_bits())), Some(TimeoutSetting::FloatSeconds(0.25f64.to_bits())));
    assert_eq!(timeout(DynamicValue::Float(f64::MIN_POSITIVE.to_bits())), Some(TimeoutSetting::FloatSeconds(f64::MIN_POSITIVE.to_bits())));
    assert_eq!(timeout(DynamicValue::Float(f64::MAX.to_bits())), Some(TimeoutSetting::FloatSeconds(f64::MAX.to_bits())));
    assert_eq!(timeout(DynamicValue::Int(5)), Some(TimeoutSetting::Seconds(5)));
    assert_eq!(timeout(DynamicValue::Int(i64::MAX)), Some(TimeoutSetting::Seconds(i64::MAX as u64)));
    assert_eq!(timeout(DynamicValue::Float(0.0f64.to_bits())), None);
    assert_eq!(timeout(DynamicValue::Float((-0.0f64).to_bits())), None);
    assert_eq!(timeout(DynamicValue::Float((-1.5f64).to_bits())), None);
    assert_eq!(timeout(DynamicValue::Float(f64::NAN.to_bits())), None);
    assert_eq!(timeout(DynamicValue::Float(f64::INFINITY.to_bits())), None);
    assert_eq!(timeout(DynamicValue::Int(0)), None);
    assert_eq!(timeout(DynamicValue::Int(-3)), None);
    assert_eq!(timeout(DynamicValue::Int(i64::MIN)), None);
    assert_eq!(timeout(DynamicValue::Bool(true)), None);
    assert_eq!(timeout(DynamicValue::Text(text("5"))), None);
    assert_eq!(timeout(DynamicValue::Nothing), None);
    assert_eq!(extract_timeout_from_extensions(&extract_extensions(&ExtensionsInput::Absent)), None);
    let elsewhere = extract_extensions(&extensions_of(vec![("Timeout", DynamicValue::Int(5))]));
    assert_eq!(extract_timeout_from_extensions(&elsewhere), None);
}

#[test]
fn streaming_is_requested_only_by_true() {
    let streaming = |value: DynamicValue| {
        is_streaming_requested(&extract_extensions(&extensions_of(vec![("stream", value)])))
    };
    assert!(streaming(DynamicValue::Bool(true)));
    assert!(!streaming(DynamicValue::Bool(false)));
    assert!(!streaming(DynamicValue::Int(1)));
    assert!(!streaming(DynamicValue::Text(text("true"))));
    assert!(!streaming(DynamicValue::Nothing));
    assert!(!is_streaming_requested(&extract_extensions(&ExtensionsInput::Absent)));
}

#[test]
fn response_object_carries_status_headers_body_and_extensions() {
    let extensions = extract_extensions(&extensions_of(vec![("custom", DynamicValue::Text(text("x")))]));
    let headers = received(vec![("content-length", b"5".to_vec())]);
    let response = create_response_object(200, &headers, ResponseBody::Content(b"hello".to_vec()), Some(extensions))
        .ok()
        .expect("a valid head");
    assert_eq!(response.status, 200);
    assert_eq!(response.headers, vec![(text("content-length"), text("5"))]);
    assert!(matches!(&response.body, ResponseBody::Content(bytes) if bytes == b"hello"));
    assert!(!response.is_streamed());
    assert!(matches!(response.extensions.get("custom"), Some(ExtensionValue::Text(s)) if s == "x"));
    let bare = create_response_object(599, &HeaderMap::new(), ResponseBody::Content(vec![]), None).ok().expect("a valid head");
    assert_eq!(bare.status, 599);
    assert_eq!(bare.extensions.len(), 0);
    assert!(create_response_object(100, &HeaderMap::new(), ResponseBody::Content(vec![]), None).is_ok());
}

#[test]
fn response_object_rejects_a_status_out_of_range() {
    for status in [0u16, 99, 600, 999, u16::MAX] {
        let err = create_response_object(status, &HeaderMap::new(), ResponseBody::Content(vec![]), None)
            .err()
            .expect("no status code");
        assert_eq!(err.kind(), ErrorKind::RemoteProtocolError);
        assert_eq!(err.detail(), "Status code out of range");
    }
    let headers = received(vec![("x", vec![0xffu8])]);
    let err = create_response_object(700, &headers, ResponseBody::Content(vec![]), None).err().expect("no status code");
    assert_eq!(err.detail(), "Status code out of range");
    let err = create_response_object(200, &headers, ResponseBody::Content(vec![]), None).err().expect("an opaque value");
    assert_eq!(err.detail(), "Invalid header value: failed to convert header to a str");
}

#[test]
fn outcome_of_the_url_parser_is_handed_on_or_reported_as_invalid_url() {
    let parsed = RequestUrl::parse("https://example.com/a");
    let url = url_outcome(parsed).ok().expect("the parser's URL");
    assert_eq!(url.as_str(), "https://example.com/a");
    let err = url_outcome(Err(text("no such scheme"))).err().expect("the parser's reason");
    assert_eq!(err.kind(), ErrorKind::InvalidURL);
    assert_eq!(err.detail(), "no such scheme");
    assert_eq!(err.to_string(), "Invalid URL: no such scheme");
}
