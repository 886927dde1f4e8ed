use ness::http_service::{
    check_headers, check_method, http_response_outcome, prepare_http_request, resolve_method,
    RequestConfig, DEFAULT_TIMEOUT_MS,
};

fn s(t: &str) -> String {
    t.to_string()
}

fn pairs(items: &[(&str, &str)]) -> Vec<(String, String)> {
    items.iter().map(|(k, v)| (k.to_string(), v.to_string())).collect()
}

fn config(method: Option<&str>, headers: Option<Vec<(String, String)>>) -> RequestConfig {
    RequestConfig {
        url: s("http://example.com/api"),
        method: method.map(s),
        headers,
        params: None,
        data: None,
        timeout: None,
    }
}

#[test]
fn standard_methods_are_accepted() {
    for m in ["GET", "POST", "PUT", "DELETE", "HEAD", "OPTIONS", "CONNECT", "PATCH", "TRACE"] {
        assert_eq!(check_method(m), Ok(s(m)));
    }
}

#[test]
fn extension_method_is_accepted() {
    assert_eq!(check_method("PURGE"), Ok(s("PURGE")));
    assert_eq!(check_method("M-SEARCH"), Ok(s("M-SEARCH")));
}

#[test]
fn method_with_space_or_empty_is_rejected() {
    assert_eq!(check_method("GET ME"), Err(s("Invalid HTTP method")));
    assert_eq!(check_method(""), Err(s("Invalid HTTP method")));
    assert_eq!(check_method("GET\n"), Err(s("Invalid HTTP method")));
}

#[test]
fn method_is_uppercased() {
    assert_eq!(resolve_method(&Some(s("post"))), Ok(s("POST")));
    assert_eq!(resolve_method(&Some(s("PaTcH"))), Ok(s("PATCH")));
}

#[test]
fn absent_method_is_get() {
    assert_eq!(resolve_method(&None), Ok(s("GET")));
}

#[test]
fn non_ascii_method_is_uppercased_by_unicode_rules() {
    // LATIN SMALL LETTER LONG S uppercases to 'S'.
    assert_eq!(resolve_method(&Some(s("\u{17f}et"))), Ok(s("SET")));
    assert_eq!(resolve_method(&Some(s("gét"))), Err(s("Invalid HTTP method")));
}

#[test]
fn header_names_are_lowercased_in_order() {
    let out = check_headers(&pairs(&[("Content-Type", "application/json"), ("X-Trace", "a\tb"), ("accept", "héllo")]))
        .unwrap();
    assert_eq!(
        out,
        pairs(&[("content-type", "application/json"), ("x-trace", "a\tb"), ("accept", "héllo")])
    );
}

#[test]
fn bad_header_name_is_rejected() {
    assert_eq!(check_headers(&pairs(&[("bad name", "v")])), Err(s("invalid HTTP header name")));
    assert_eq!(check_headers(&pairs(&[("", "v")])), Err(s("invalid HTTP header name")));
    assert_eq!(check_headers(&pairs(&[("naïve", "v")])), Err(s("invalid HTTP header name")));
}

#[test]
fn bad_header_value_is_rejected() {
    assert_eq!(check_headers(&pairs(&[("x-a", "line\nbreak")])), Err(s("failed to parse header value")));
    assert_eq!(check_headers(&pairs(&[("x-a", "del\u{7f}")])), Err(s("failed to parse header value")));
}

#[test]
fn first_bad_header_decides_the_error() {
    assert_eq!(
        check_headers(&pairs(&[("ok", "fine"), ("bad name", "bad\nvalue")])),
        Err(s("invalid HTTP header name"))
    );
    assert_eq!(
        check_headers(&pairs(&[("x-a", "bad\nvalue"), ("bad name", "v")])),
        Err(s("failed to parse header value"))
    );
}

#[test]
fn long_header_name_limit() {
    let ok = "a".repeat(65535);
    let too_long = "a".repeat(65536);
    assert!(check_headers(&vec![(ok, s("v"))]).is_ok());
    assert_eq!(check_headers(&vec![(too_long, s("v"))]), Err(s("invalid HTTP header name")));
}

#[test]
fn defaults_are_filled_in() {
    let p = prepare_http_request(config(None, None)).unwrap();
    assert_eq!(p.method, "GET");
    assert_eq!(p.url, "http://example.com/api");
    assert!(p.headers.is_empty());
    assert!(p.query.is_empty());
    assert_eq!(p.body, "");
    assert_eq!(p.timeout_ms, 30000);
    assert_eq!(DEFAULT_TIMEOUT_MS, 30000);
}

#[test]
fn given_fields_are_kept() {
    let cfg = RequestConfig {
        url: s("http://h/p"),
        method: Some(s("put")),
        headers: Some(pairs(&[("Authorization", "Bearer t")])),
        params: Some(pairs(&[("q", "1"), ("page", "2")])),
        data: Some(s("{\"a\":1}")),
        timeout: Some(1500),
    };
    let p = prepare_http_request(cfg).unwrap();
    assert_eq!(p.method, "PUT");
    assert_eq!(p.headers, pairs(&[("authorization", "Bearer t")]));
    assert_eq!(p.query, pairs(&[("q", "1"), ("page", "2")]));
    assert_eq!(p.body, "{\"a\":1}");
    assert_eq!(p.timeout_ms, 1500);
}

#[test]
fn invalid_method_is_reported_before_headers() {
    let r = prepare_http_request(config(Some("bad method"), Some(pairs(&[("bad name", "v")]))));
    assert_eq!(r.err(), Some(s("Invalid HTTP method")));
}

#[test]
fn header_error_is_reported_for_valid_method() {
    let r = prepare_http_request(config(Some("post"), Some(pairs(&[("x", "a\rb")]))));
    assert_eq!(r.err(), Some(s("failed to parse header value")));
}

#[test]
fn response_outcomes() {
    assert_eq!(http_response_outcome(Ok(Ok(s("body")))), Ok(s("body")));
    assert_eq!(
        http_response_outcome(Ok(Err(s("eof")))),
        Err(s("Failed to read response body: eof"))
    );
    assert_eq!(
        http_response_outcome(Err(s("timed out"))),
        Err(s("HTTP request failed: timed out"))
    );
}

#[test]
fn accepted_headers_recheck_unchanged() {
    let once = check_headers(&pairs(&[("X-Mixed-Case", "v1"), ("ETAG", "\"abc\"")])).unwrap();
    let twice = check_headers(&once).unwrap();
    assert_eq!(once, twice);
    assert_eq!(once, pairs(&[("x-mixed-case", "v1"), ("etag", "\"abc\"")]));
}

#[test]
fn same_method_whatever_the_ascii_case() {
    let a = resolve_method(&Some(s("delete"))).unwrap();
    let b = resolve_method(&Some(s("DeLeTe"))).unwrap();
    assert_eq!(a, b);
    assert_eq!(resolve_method(&Some(a.clone())), Ok(a));
}
