use http::header::{HeaderMap, HeaderName, HeaderValue};
use http::Method;
use jwfetch::{
    add_trace_header, check_request_fits, classify, compose_url, extract_message,
    is_valid_header_name, payload_placement, prepare_request, BaseRequestConfig, CustomError,
    FetchError, HttpError, NetworkError, ParseError, Placement, RawResponse, RequestConfig,
};

type InboundHeaders = actix_http::header::HeaderMap;

fn config(method: Method, url: &str) -> RequestConfig {
    RequestConfig {
        url: url.to_string(),
        method,
        base_url: None,
        headers: None,
        data: None,
        timeout_ms: None,
        origin_headers: None,
        extra_header_keys: None,
    }
}

fn outbound(pairs: &[(&'static str, &'static str)]) -> HeaderMap {
    let mut h = HeaderMap::new();
    for &(k, v) in pairs {
        h.append(HeaderName::from_static(k), HeaderValue::from_static(v));
    }
    h
}

fn inbound(pairs: &[(&'static str, &'static str)]) -> InboundHeaders {
    let mut h = InboundHeaders::new();
    for &(k, v) in pairs {
        h.append(HeaderName::from_static(k), HeaderValue::from_static(v));
    }
    h
}

fn value_of(h: &HeaderMap, name: &str) -> Option<String> {
    h.get(name).map(|v| String::from_utf8_lossy(v.as_bytes()).into_owned())
}

fn decode_envelope(s: String) -> Result<CustomError, String> {
    match serde_json::from_str::<serde_json::Value>(&s) {
        Ok(v) => match v.get("message").and_then(|m| m.as_str()) {
            Some(m) => Ok(CustomError { message: m.to_string() }),
            None => Err("missing field `message`".to_string()),
        },
        Err(e) => Err(e.to_string()),
    }
}

fn decode_value(s: String) -> Result<serde_json::Value, String> {
    serde_json::from_str::<serde_json::Value>(&s).map_err(|e| e.to_string())
}

#[test]
fn compose_strips_both_slashes() {
    assert_eq!(compose_url(&Some("http://h/".to_string()), "/a"), "http://h/a");
    assert_eq!(compose_url(&Some("http://x/".to_string()), "/a/b"), "http://x/a/b");
}

#[test]
fn compose_adds_missing_slash() {
    assert_eq!(compose_url(&Some("http://h".to_string()), "a"), "http://h/a");
    assert_eq!(compose_url(&Some("http://h/".to_string()), "a"), "http://h/a");
    assert_eq!(compose_url(&Some("http://h".to_string()), "/a"), "http://h/a");
}

#[test]
fn compose_without_base_keeps_path() {
    assert_eq!(compose_url(&None, "/a//b"), "/a//b");
}

#[test]
fn compose_strips_only_one_slash() {
    assert_eq!(compose_url(&Some("http://h//".to_string()), "//a"), "http://h///a");
    assert_eq!(compose_url(&Some(String::new()), ""), "/");
}

#[test]
fn get_places_data_in_query() {
    let mut c = config(Method::GET, "http://h/x");
    c.data = Some("a=1".to_string());
    let r = prepare_request(c);
    assert_eq!(r.url, "http://h/x?a=1");
    assert_eq!(r.body, None);
    assert!(r.headers.is_empty());
}

#[test]
fn get_after_question_mark_uses_ampersand() {
    let mut c = config(Method::GET, "http://h/x?");
    c.data = Some("a=1".to_string());
    assert_eq!(prepare_request(c).url, "http://h/x?&a=1");
}

#[test]
fn delete_places_data_in_query_after_base() {
    let mut c = config(Method::DELETE, "/items");
    c.base_url = Some("http://h/api/".to_string());
    c.data = Some("id=3&x=y".to_string());
    assert_eq!(prepare_request(c).url, "http://h/api/items?id=3&x=y");
}

#[test]
fn post_places_data_in_body_with_json_type() {
    let mut c = config(Method::POST, "http://h/x");
    c.data = Some("{\"a\":1}".to_string());
    let r = prepare_request(c);
    assert_eq!(r.url, "http://h/x");
    assert_eq!(r.body, Some("{\"a\":1}".to_string()));
    assert_eq!(
        value_of(&r.headers, "content-type"),
        Some("application/json; charset=utf-8".to_string())
    );
    assert_eq!(r.headers.len(), 1);
}

#[test]
fn put_keeps_explicit_content_type() {
    let mut c = config(Method::PUT, "http://h/x");
    c.data = Some("a=1".to_string());
    c.headers = Some(outbound(&[("content-type", "text/plain")]));
    let r = prepare_request(c);
    assert_eq!(value_of(&r.headers, "Content-Type"), Some("text/plain".to_string()));
    assert_eq!(r.headers.len(), 1);
    assert_eq!(r.body, Some("a=1".to_string()));
}

#[test]
fn other_methods_drop_data() {
    let mut c = config(Method::PATCH, "http://h/x");
    c.data = Some("a=1".to_string());
    let r = prepare_request(c);
    assert_eq!(r.url, "http://h/x");
    assert_eq!(r.body, None);
    assert!(r.headers.is_empty());
}

#[test]
fn post_without_data_still_sets_content_type() {
    let r = prepare_request(config(Method::POST, "http://h/x"));
    assert_eq!(r.body, None);
    assert!(r.headers.contains_key("content-type"));
}

#[test]
fn timeout_defaults_to_two_minutes() {
    assert_eq!(prepare_request(config(Method::GET, "u")).timeout_ms, 120_000);
    let mut c = config(Method::GET, "u");
    c.timeout_ms = Some(5);
    assert_eq!(prepare_request(c).timeout_ms, 5);
}

#[test]
fn explicit_header_wins_over_trace_header() {
    let mut c = config(Method::GET, "http://h/x");
    c.origin_headers = Some(inbound(&[("x-request-id", "inbound"), ("x-b3-spanid", "S")]));
    c.headers = Some(outbound(&[("x-request-id", "explicit")]));
    let r = prepare_request(c);
    assert_eq!(value_of(&r.headers, "x-request-id"), Some("explicit".to_string()));
    assert_eq!(r.headers.get_all("x-request-id").iter().count(), 1);
    assert_eq!(value_of(&r.headers, "x-b3-spanid"), Some("S".to_string()));
    assert_eq!(r.headers.len(), 2);
}

#[test]
fn explicit_headers_keep_all_their_values() {
    let mut c = config(Method::GET, "http://h/x");
    c.origin_headers = Some(inbound(&[("x-b3-sampled", "1")]));
    c.headers = Some(outbound(&[("accept", "a"), ("accept", "b"), ("x-b3-sampled", "0")]));
    let r = prepare_request(c);
    let accepts: Vec<&HeaderValue> = r.headers.get_all("accept").iter().collect();
    assert_eq!(accepts, vec!["a", "b"]);
    assert_eq!(value_of(&r.headers, "x-b3-sampled"), Some("0".to_string()));
}

#[test]
fn trace_forwarding_keeps_only_allow_listed() {
    let origin = inbound(&[("x-b3-traceid", "T1"), ("cookie", "c"), ("user-agent", "ua")]);
    let r = add_trace_header(origin, &None);
    assert_eq!(value_of(&r, "x-b3-traceid"), Some("T1".to_string()));
    assert_eq!(r.len(), 1);
    assert!(!r.contains_key("cookie"));
}

#[test]
fn trace_forwarding_with_extra_keys() {
    let origin = inbound(&[
        ("x-b3-sampled", "1"),
        ("cookie", "c"),
        ("referer", "r"),
        ("x-request-id", "R"),
    ]);
    let r = add_trace_header(origin, &Some(vec!["Cookie", "x-request-id"]));
    assert_eq!(value_of(&r, "x-b3-sampled"), Some("1".to_string()));
    assert_eq!(value_of(&r, "cookie"), Some("c".to_string()));
    assert_eq!(value_of(&r, "x-request-id"), Some("R".to_string()));
    assert_eq!(r.get_all("x-request-id").iter().count(), 1);
    assert_eq!(r.len(), 3);
    assert!(!r.contains_key("referer"));
}

#[test]
fn trace_forwarding_takes_first_value() {
    let origin = inbound(&[("x-b3-spanid", "first"), ("x-b3-spanid", "second")]);
    let r = add_trace_header(origin, &None);
    assert_eq!(value_of(&r, "x-b3-spanid"), Some("first".to_string()));
    assert_eq!(r.len(), 1);
}

#[test]
fn trace_forwarding_from_empty_origin() {
    let r = add_trace_header(InboundHeaders::new(), &Some(vec!["cookie"]));
    assert!(r.is_empty());
}

#[test]
fn no_origin_headers_means_none_forwarded() {
    let mut c = config(Method::GET, "http://h/x");
    c.extra_header_keys = Some(vec!["cookie"]);
    assert!(prepare_request(c).headers.is_empty());
}

#[test]
fn header_name_validity() {
    assert!(is_valid_header_name("x-b3-traceid"));
    assert!(is_valid_header_name("a!#$%&'*+-.^_`|~0"));
    assert!(is_valid_header_name("User-Agent"));
    assert!(!is_valid_header_name("caf\u{e9}"));
    assert!(!is_valid_header_name("a b"));
    assert!(!is_valid_header_name(""));
}

#[test]
fn request_fit_check() {
    let mut c = config(Method::GET, "u");
    assert!(check_request_fits(&c));
    c.extra_header_keys = Some(vec!["cookie", "Referer"]);
    assert!(check_request_fits(&c));
    c.extra_header_keys = Some(vec!["cookie", "bad key"]);
    assert!(!check_request_fits(&c));
    c.extra_header_keys = Some(vec!["cookie"]);
    c.headers = Some(outbound(&[("accept", "a")]));
    assert!(check_request_fits(&c));
}

#[test]
fn base_config_with_method() {
    let base = BaseRequestConfig {
        base_url: Some("http://h".to_string()),
        headers: None,
        data: Some("q=1".to_string()),
        timeout_ms: Some(10),
        origin_headers: None,
        extra_header_keys: None,
    };
    let c = base.with_method("p".to_string(), Method::GET);
    assert_eq!(c.method, Method::GET);
    let r = prepare_request(c);
    assert_eq!(r.url, "http://h/p?q=1");
    assert_eq!(r.timeout_ms, 10);
}

#[test]
fn classify_success_decodes_body() {
    let raw = Ok(RawResponse { status: 200, body: "{\"a\":1}".to_string() });
    let r = classify(raw, decode_value, decode_envelope).unwrap();
    assert_eq!(r.get("a").and_then(|v| v.as_u64()), Some(1));
}

#[test]
fn classify_success_into_integer() {
    let raw = Ok(RawResponse { status: 204, body: "7".to_string() });
    let r = classify(raw, |s: String| s.trim().parse::<u32>().map_err(|e| e.to_string()), decode_envelope);
    assert_eq!(r, Ok(7));
}

#[test]
fn classify_not_found_is_http_failure() {
    let raw = Ok(RawResponse { status: 404, body: "{\"message\":\"no such user\"}".to_string() });
    let r = classify(raw, decode_value, decode_envelope);
    assert_eq!(
        r,
        Err(FetchError::Http(HttpError { message: "no such user".to_string(), code: 404 }))
    );
}

#[test]
fn classify_http_failure_with_plain_body() {
    let raw = Ok(RawResponse { status: 500, body: "oops".to_string() });
    let r = classify(raw, decode_value, decode_envelope);
    match r {
        Err(FetchError::Http(e)) => {
            assert_eq!(e.code, 500);
            assert_eq!(e.message, decode_envelope("oops".to_string()).unwrap_err());
            assert_ne!(e.message, "oops");
        }
        other => panic!("unexpected {:?}", other),
    }
}

#[test]
fn classify_redirect_status_is_http_failure() {
    let raw = Ok(RawResponse { status: 300, body: "{\"message\":\"moved\"}".to_string() });
    let r = classify(raw, decode_value, decode_envelope);
    assert_eq!(r, Err(FetchError::Http(HttpError { message: "moved".to_string(), code: 300 })));
}

#[test]
fn classify_undecodable_success_is_parse_failure() {
    let raw = Ok(RawResponse { status: 200, body: "not json".to_string() });
    let r = classify(raw, decode_value, decode_envelope);
    let why = decode_value("not json".to_string()).unwrap_err();
    let expected_message = decode_envelope(why).unwrap_err();
    assert_eq!(
        r,
        Err(FetchError::Parse(ParseError {
            message: expected_message,
            code: 200,
            body: "not json".to_string(),
        }))
    );
}

#[test]
fn classify_transport_error_is_network_failure() {
    let raw: Result<RawResponse, String> = Err("connection refused".to_string());
    let r = classify(raw, decode_value, decode_envelope);
    assert_eq!(
        r,
        Err(FetchError::Network(NetworkError { message: "connection refused".to_string() }))
    );
}

#[test]
fn extract_message_reads_envelope() {
    assert_eq!(
        extract_message("{\"message\":\"bad input\"}".to_string(), &decode_envelope),
        "bad input"
    );
}

#[test]
fn extract_message_falls_back_to_decode_error() {
    let m = extract_message("<html>".to_string(), &decode_envelope);
    assert_eq!(m, decode_envelope("<html>".to_string()).unwrap_err());
    assert_ne!(m, "<html>");
}

#[test]
fn extract_message_twice_gives_same_text() {
    let a = extract_message("{\"message\":\"x\"}".to_string(), &decode_envelope);
    let b = extract_message("{\"message\":\"x\"}".to_string(), &decode_envelope);
    assert_eq!(a, b);
    let c = extract_message("nope".to_string(), &decode_envelope);
    let d = extract_message("nope".to_string(), &decode_envelope);
    assert_eq!(c, d);
}

#[test]
fn describe_http_failure_with_reason() {
    let e = FetchError::Http(HttpError { message: "gone".to_string(), code: 404 });
    assert_eq!(e.describe(), "Http error [404 Not Found]: gone");
}

#[test]
fn describe_parse_failure() {
    let e = FetchError::Parse(ParseError {
        message: "m".to_string(),
        code: 200,
        body: "b".to_string(),
    });
    assert_eq!(e.describe(), "Parse error [200 OK]: m. \nOrigin body: b");
}

#[test]
fn describe_network_failure() {
    let e = FetchError::Network(NetworkError { message: "refused".to_string() });
    assert_eq!(e.describe(), "Network error: refused");
}

#[test]
fn describe_unknown_status_codes() {
    let e = FetchError::Http(HttpError { message: "x".to_string(), code: 599 });
    assert_eq!(e.describe(), "Http error [599 <unknown status code>]: x");
    let e = FetchError::Http(HttpError { message: "x".to_string(), code: 7 });
    assert_eq!(e.describe(), "Http error [7 <unknown status code>]: x");
    let e = FetchError::Http(HttpError { message: "x".to_string(), code: 65535 });
    assert_eq!(e.describe(), "Http error [65535 <unknown status code>]: x");
}

#[test]
fn status_success_range() {
    assert!(jwfetch::is_success(200));
    assert!(jwfetch::is_success(299));
    assert!(!jwfetch::is_success(199));
    assert!(!jwfetch::is_success(300));
}

#[test]
fn decimal_rendering() {
    assert_eq!(jwfetch::decimal_string(0), "0");
    assert_eq!(jwfetch::decimal_string(10), "10");
    assert_eq!(jwfetch::decimal_string(65535), "65535");
}

#[test]
fn payload_placement_by_method() {
    assert_eq!(payload_placement(&Method::GET), Placement::Query);
    assert_eq!(payload_placement(&Method::DELETE), Placement::Query);
    assert_eq!(payload_placement(&Method::POST), Placement::Body);
    assert_eq!(payload_placement(&Method::PUT), Placement::Body);
    assert_eq!(payload_placement(&Method::HEAD), Placement::Neither);
    let purge = Method::from_bytes(b"PURGE").unwrap();
    assert_eq!(payload_placement(&purge), Placement::Neither);
}

#[test]
fn failures_convert_into_fetch_error() {
    let e: FetchError = HttpError { message: "m".to_string(), code: 502 }.into();
    assert_eq!(e, FetchError::Http(HttpError { message: "m".to_string(), code: 502 }));
    let e = FetchError::from(NetworkError { message: "n".to_string() });
    assert_eq!(e, FetchError::Network(NetworkError { message: "n".to_string() }));
    let p = ParseError { message: "p".to_string(), code: 201, body: "b".to_string() };
    assert_eq!(FetchError::from(p.clone()), FetchError::Parse(p));
}
