use resto::method::HttpMethod;
use resto::request::HttpRequest;
use resto::response::HttpResponse;

fn pair(k: &str, v: &str) -> (String, String) {
    (String::from(k), String::from(v))
}

#[test]
fn method_names_and_cycling() {
    assert_eq!(HttpMethod::Get.as_str(), "GET");
    assert_eq!(HttpMethod::Options.as_str(), "OPTIONS");
    assert_eq!(HttpMethod::Get.next(), HttpMethod::Post);
    assert_eq!(HttpMethod::Options.next(), HttpMethod::Get);
    assert_eq!(HttpMethod::Get.previous(), HttpMethod::Options);
    assert_eq!(HttpMethod::Put.previous(), HttpMethod::Post);
}

#[test]
fn method_parsing_ignores_case() {
    assert_eq!(HttpMethod::from_name("delete"), Some(HttpMethod::Delete));
    assert_eq!(HttpMethod::from_name("Patch"), Some(HttpMethod::Patch));
    assert_eq!(HttpMethod::from_name("GET"), Some(HttpMethod::Get));
    assert_eq!(HttpMethod::from_name("FROB"), None);
    // Case folding is the full Unicode uppercasing: dotless i folds to I.
    assert_eq!(HttpMethod::from_name("OPT\u{0131}ONS"), Some(HttpMethod::Options));
    assert_eq!("head".parse::<HttpMethod>(), Ok(HttpMethod::Head));
    assert!("nope".parse::<HttpMethod>().is_err());
}

#[test]
fn new_request_is_blank_with_fresh_id() {
    let req = HttpRequest::new();
    assert_eq!(req.method, HttpMethod::Get);
    assert_eq!(req.url, "");
    assert!(req.headers.is_empty());
    assert!(req.queries.is_empty());
    assert_eq!(req.body, "");
    assert_eq!(req.id.chars().count(), 36);
}

#[test]
fn set_url_prepends_scheme_when_missing() {
    let mut req = HttpRequest::new();
    req.set_url("example.com/a");
    assert_eq!(req.url, "https://example.com/a");
    req.set_url("http://example.com/b");
    assert_eq!(req.url, "http://example.com/b");
}

#[test]
fn add_header_replaces_existing_key() {
    let mut req = HttpRequest::new();
    req.add_header(String::from("Accept"), String::from("text/plain"));
    req.add_header(String::from("Accept"), String::from("application/json"));
    assert_eq!(req.headers.len(), 1);
    assert_eq!(req.headers[0], pair("Accept", "application/json"));
}

#[test]
fn content_type_prefers_canonical_spelling() {
    let mut req = HttpRequest::new();
    assert_eq!(req.content_type(), None);
    req.add_header(String::from("content-type"), String::from("text/xml"));
    assert_eq!(req.content_type(), Some(&String::from("text/xml")));
    req.add_header(String::from("Content-Type"), String::from("application/json"));
    assert_eq!(req.content_type(), Some(&String::from("application/json")));
}

#[test]
fn has_body_for_mutating_methods_only() {
    let mut req = HttpRequest::new();
    assert!(!req.is_valid());
    assert!(!req.has_body());
    req.set_method(HttpMethod::Post);
    assert!(req.has_body());
    req.set_method(HttpMethod::Head);
    assert!(!req.has_body());
    req.set_url("http://example.com");
    assert!(req.is_valid());
}

#[test]
fn set_body_pretty_prints_json() {
    let mut req = HttpRequest::new();
    assert!(req.set_body("{\"b\":1,\"a\":[true,null]}").is_ok());
    let value: serde_json::Value = serde_json::from_str("{\"b\":1,\"a\":[true,null]}").unwrap();
    let expected = serde_json::to_string_pretty(&value).unwrap();
    assert_eq!(req.body, expected);

    assert!(req.set_body("definitely not json {").is_err());
    assert_eq!(req.body, expected);
}

#[test]
fn response_status_classes() {
    let ok = HttpResponse::new(String::from("r1"), 204, String::from("No Content"), Vec::new(), String::new(), 12);
    assert!(ok.is_success());
    assert!(!ok.is_client_error());
    assert!(!ok.is_server_error());

    let missing = HttpResponse::new(String::from("r2"), 404, String::from("Not Found"), Vec::new(), String::new(), 5);
    assert!(!missing.is_success());
    assert!(missing.is_client_error());

    let broken = HttpResponse::new(String::from("r3"), 502, String::from("Bad Gateway"), Vec::new(), String::new(), 5);
    assert!(broken.is_server_error());
}

#[test]
fn response_content_type_predicates() {
    let headers = vec![pair("content-type", "application/json; charset=utf-8")];
    let resp = HttpResponse::new(String::from("r"), 200, String::from("OK"), headers, String::from("{}"), 1);
    assert!(resp.is_json());
    assert!(!resp.is_xml());
    assert!(!resp.is_html());

    let headers = vec![pair("Content-Type", "text/html")];
    let resp = HttpResponse::new(String::from("r"), 200, String::from("OK"), headers, String::new(), 1);
    assert!(resp.is_html());
    assert!(!resp.is_json());
}

#[test]
fn response_formatted_headers_joins_lines() {
    let headers = vec![pair("server", "nginx"), pair("age", "0")];
    let resp = HttpResponse::new(String::from("r"), 200, String::from("OK"), headers, String::new(), 1);
    assert_eq!(resp.formatted_headers(), "server: nginx\nage: 0");

    let resp = HttpResponse::new(String::from("r"), 200, String::from("OK"), Vec::new(), String::new(), 1);
    assert_eq!(resp.formatted_headers(), "");
}

#[test]
fn response_pretty_json_reformats_json_bodies() {
    let headers = vec![pair("content-type", "application/json")];
    let resp = HttpResponse::new(
        String::from("r"),
        200,
        String::from("OK"),
        headers,
        String::from("{\"x\":[1,2]}"),
        1,
    );
    let value: serde_json::Value = serde_json::from_str("{\"x\":[1,2]}").unwrap();
    assert_eq!(resp.pretty_json().unwrap(), serde_json::to_string_pretty(&value).unwrap());

    let plain = HttpResponse::new(
        String::from("r"),
        200,
        String::from("OK"),
        Vec::new(),
        String::from("just text"),
        1,
    );
    assert_eq!(plain.pretty_json().unwrap(), "just text");
}

#[test]
fn response_formatted_size_rounds_to_one_decimal() {
    let sized = |n: usize| {
        let body: String = std::iter::repeat('x').take(n).collect();
        HttpResponse::new(String::from("r"), 200, String::from("OK"), Vec::new(), body, 1)
    };
    assert_eq!(sized(0).formatted_size(), "0 B");
    assert_eq!(sized(500).formatted_size(), "500 B");
    assert_eq!(sized(1023).formatted_size(), "1023 B");
    assert_eq!(sized(1024).formatted_size(), "1.0 KB");
    assert_eq!(sized(1536).formatted_size(), "1.5 KB");
    assert_eq!(sized(10240).formatted_size(), "10.0 KB");
    assert_eq!(sized(2621440).formatted_size(), "2.5 MB");
}

#[test]
fn formatted_request_blocks_align() {
    let mut req = HttpRequest::new();
    req.add_header(String::from("Accept"), String::from("*/*"));
    req.add_header(String::from("Authorization"), String::from("Bearer t"));
    assert_eq!(req.formatted_headers(), "Accept        : */*\nAuthorization : Bearer t");
    req.add_query(String::from("page"), String::from("2"));
    assert_eq!(req.formatted_queries(), "page : 2");
}
