use std::collections::HashMap;

use resto::curl::{CurlParseError, parse_curl, tokenize_curl_command};
use resto::method::HttpMethod;

fn as_map(pairs: &Vec<(String, String)>) -> HashMap<String, String> {
    pairs.iter().cloned().collect()
}

#[test]
fn test_parse_when_only_url_passed() {
    let curl = "curl 'http://api.example.com/users/me/'";

    let result = parse_curl(curl).unwrap();

    assert_eq!(result.url, "http://api.example.com/users/me/");
    assert_eq!(result.method, HttpMethod::Get);
}

#[test]
fn test_parse_when_headers_passed() {
    let curl = r#"
        curl "https://api.example.com/users/me/" \
          -H 'Accept: application/json, text/plain, */*' \
          -H 'Authorization: Bearer some_jwt_token' \
          -H 'Connection: keep-alive' \
          -H 'Origin: https://api.example.com' \
          -H 'Referer: https://api.example.com' \
          -H 'Sec-Fetch-Site: same-site'
    "#;

    let result = parse_curl(curl).unwrap();

    assert_eq!(result.url, "https://api.example.com/users/me/");
    assert_eq!(result.method, HttpMethod::Get);

    assert_eq!(
        as_map(&result.headers),
        HashMap::from([
            (String::from("Accept"), String::from("application/json, text/plain, */*")),
            (String::from("Authorization"), String::from("Bearer some_jwt_token")),
            (String::from("Connection"), String::from("keep-alive")),
            (String::from("Origin"), String::from("https://api.example.com")),
            (String::from("Referer"), String::from("https://api.example.com")),
            (String::from("Sec-Fetch-Site"), String::from("same-site")),
        ])
    );
}

#[test]
fn test_when_data_raw_passed() {
    let curl = r#"
        curl 'https://api.example.ru/api/projects/' \
          -H 'Accept: application/json, text/plain, */*' \
          -H 'Content-Type: application/json' \
          --data-raw '{"name":"test","projectType":"DAILY","isActive":false}'
    "#;

    let result = parse_curl(curl).unwrap();

    assert_eq!(result.url, "https://api.example.ru/api/projects/");
    assert_eq!(result.method, HttpMethod::Post);

    assert_eq!(
        as_map(&result.headers),
        HashMap::from([
            (String::from("Accept"), String::from("application/json, text/plain, */*")),
            (String::from("Content-Type"), String::from("application/json")),
        ])
    );

    let value: serde_json::Value =
        serde_json::from_str("{\"name\":\"test\",\"projectType\":\"DAILY\",\"isActive\":false}")
            .unwrap();
    let expected_body = serde_json::to_string_pretty(&value).unwrap();
    assert_eq!(result.body, expected_body);
}

#[test]
fn test_when_queries_passed() {
    let curl = r"
        curl 'https://api.example.ru/api/projects/?name=&ordering=-index&limit=50&offset=0&is_hidden=false' \
          -H 'Accept: application/json, text/plain, */*' \
          -H 'Connection: keep-alive' \
          -H 'x-use-camel-case: true'
    ";

    let result = parse_curl(curl).unwrap();

    assert_eq!(result.url, "https://api.example.ru/api/projects/");
    assert_eq!(result.method, HttpMethod::Get);

    assert_eq!(
        as_map(&result.headers),
        HashMap::from([
            (String::from("Accept"), String::from("application/json, text/plain, */*")),
            (String::from("Connection"), String::from("keep-alive")),
            (String::from("x-use-camel-case"), String::from("true")),
        ])
    );

    assert_eq!(
        as_map(&result.queries),
        HashMap::from([
            (String::from("name"), String::new()),
            (String::from("ordering"), String::from("-index")),
            (String::from("limit"), String::from("50")),
            (String::from("offset"), String::from("0")),
            (String::from("is_hidden"), String::from("false")),
        ])
    );
}

#[test]
fn test_when_delete_method_passed() {
    let curl = r"
        curl 'https://api.example.ru/api/projects/6a3c6b7d/' \
          -X 'DELETE' \
          -H 'Accept: application/json, text/plain, */*' \
          -H 'x-use-camel-case: true'
    ";

    let result = parse_curl(curl).unwrap();

    assert_eq!(result.url, "https://api.example.ru/api/projects/6a3c6b7d/");
    assert_eq!(result.method, HttpMethod::Delete);

    assert_eq!(
        as_map(&result.headers),
        HashMap::from([
            (String::from("Accept"), String::from("application/json, text/plain, */*")),
            (String::from("x-use-camel-case"), String::from("true")),
        ])
    );

    assert_eq!(result.body, "");
}

#[test]
fn test_tokenize_quoting_and_escapes() {
    let toks = tokenize_curl_command("one 'two words' three\\ escaped \"mixed 'q'\"").unwrap();
    let toks: Vec<&str> = toks.iter().map(|s| s.as_str()).collect();
    assert_eq!(toks, vec!["one", "two words", "three escaped", "mixed 'q'"]);
}

#[test]
fn test_tokenize_unclosed_quote_is_error() {
    let err = tokenize_curl_command("curl 'http://oops").unwrap_err();
    assert!(matches!(err, CurlParseError::InvalidFormat(_)));
    assert_eq!(err.message(), "Invalid curl format: Unclosed quotes in curl command");
}

#[test]
fn test_missing_url_is_error() {
    let err = parse_curl("curl -H 'Accept: text/plain'").unwrap_err();
    assert!(matches!(err, CurlParseError::MissingUrl));
    assert_eq!(err.message(), "Missing URL in curl command");
}

#[test]
fn test_invalid_method_is_error() {
    let err = parse_curl("curl -X FROB http://example.com").unwrap_err();
    match err {
        CurlParseError::InvalidMethod(m) => assert_eq!(m, "FROB"),
        other => panic!("unexpected error: {other:?}"),
    }
}

#[test]
fn test_invalid_header_is_error() {
    let err = parse_curl("curl -H 'NoColonHere' http://example.com").unwrap_err();
    assert!(matches!(err, CurlParseError::InvalidHeader(_)));
}

#[test]
fn test_missing_method_argument_is_error() {
    let err = parse_curl("curl http://example.com -X").unwrap_err();
    match err {
        CurlParseError::InvalidFormat(m) => assert_eq!(m, "Missing method after -X"),
        other => panic!("unexpected error: {other:?}"),
    }
}

#[test]
fn test_invalid_json_body_is_error() {
    // The parse error's own message is surfaced.
    let err = parse_curl("curl http://example.com -d 'not json at all {'").unwrap_err();
    let expected = serde_json::from_str::<serde_json::Value>("not json at all {")
        .unwrap_err()
        .to_string();
    match err {
        CurlParseError::InvalidFormat(m) => assert_eq!(m, expected),
        other => panic!("unexpected error: {other:?}"),
    }
}

#[test]
fn test_skip_flags_are_ignored() {
    let result = parse_curl("curl --compressed -L -s http://example.com/x").unwrap();
    assert_eq!(result.url, "http://example.com/x");
    assert_eq!(result.method, HttpMethod::Get);
}
