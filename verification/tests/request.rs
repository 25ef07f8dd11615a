use wasm_service::request::cookie_value;
use wasm_service::{Error, Headers, Method, Request};

fn request_with_headers(headers: Headers) -> Request {
    Request::new(
        Method::GET,
        url::Url::parse("https://www.example.com").unwrap(),
        headers,
        None,
    )
}

#[test]
// test cookie_value function
fn test_cookie_value() {
    // short value
    assert_eq!(cookie_value("x=y", "x"), Some("y"));

    // longer value
    assert_eq!(cookie_value("foo=bar", "foo"), Some("bar"));

    // missing value
    assert_eq!(cookie_value("x=y", "z"), None);

    // empty value
    assert_eq!(cookie_value("foo=", "foo"), Some(""));
}

#[test]
fn req_method() {
    let req = Request::new(
        Method::POST,
        url::Url::parse("https://www.example.com").unwrap(),
        Headers::new(),
        None,
    );
    assert_eq!(req.method(), Method::POST);

    let req = Request::new(
        Method::DELETE,
        url::Url::parse("https://www.example.com").unwrap(),
        Headers::new(),
        None,
    );
    assert_eq!(req.method(), Method::DELETE);
}

#[test]
fn req_url() {
    let req = request_with_headers(Headers::new());
    assert_eq!(&req.url().host().unwrap().to_string(), "www.example.com");
}

#[test]
fn req_headers() {
    let mut headers = Headers::new();
    headers.set("Content-Type", "application/json");
    headers.set("X-Custom-Shape", "round");
    let req = request_with_headers(headers);

    // has_header, case-insensitive, success
    assert_eq!(req.has_header("content-type"), true);

    // has_header, non-existent
    assert_eq!(req.has_header("not-here"), false);

    // get_header, success
    assert_eq!(&req.get_header("content-type").unwrap(), "application/json");

    // get_header, non-existent
    assert_eq!(req.get_header("not-here"), None);
}

#[test]
fn req_header_set_replaces_case_insensitively() {
    let mut headers = Headers::new();
    headers.set("Content-Type", "text/plain");
    headers.set("CONTENT-TYPE", "application/json");
    assert_eq!(headers.len(), 1);
    assert_eq!(headers.get("content-type").unwrap(), "application/json");
}

#[test]
fn req_body() {
    let ascii_text = "hello-world";
    let req = Request::new(
        Method::GET,
        url::Url::parse("https://www.example.com").unwrap(),
        Headers::new(),
        Some(ascii_text.as_bytes().to_vec()),
    );
    assert_eq!(req.body().unwrap(), ascii_text.as_bytes());

    let body_bin = vec![0, 1, 2, 3];
    let req = Request::new(
        Method::GET,
        url::Url::parse("https://www.example.com").unwrap(),
        Headers::new(),
        Some(body_bin),
    );
    let body = req.body().unwrap();
    assert_eq!(body.len(), 4);
    assert_eq!(body[1], 1);
}

#[test]
fn req_query() {
    let req = Request::new(
        Method::GET,
        url::Url::parse("https://www.example.com?fruit=apple&shape=round").unwrap(),
        Headers::new(),
        None,
    );
    assert_eq!(req.get_query_value("fruit").unwrap(), "apple");
    assert_eq!(req.get_query_value("shape").unwrap(), "round");
    assert_eq!(req.get_query_value("size"), None);
}

#[test]
fn req_cookie() {
    let mut headers = Headers::new();
    headers.set("Cookie", "foo=bar;color=green");
    let req = request_with_headers(headers);

    assert_eq!(&req.get_cookie_value("foo").unwrap(), "bar");
    assert_eq!(req.get_cookie_value("bar"), None);
    assert_eq!(&req.get_cookie_value("color").unwrap(), "green");

    // parsing of cookie with spaces around ';'
    let mut headers = Headers::new();
    headers.set("Cookie", "foo=bar ; color=green ; bar=baz");
    let req = request_with_headers(headers);
    assert_eq!(&req.get_cookie_value("foo").unwrap(), "bar"); // after
    assert_eq!(&req.get_cookie_value("color").unwrap(), "green"); // before and after
    assert_eq!(&req.get_cookie_value("bar").unwrap(), "baz"); // before
}

#[test]
fn req_cookie_trims_unicode_whitespace() {
    // the original trimming is `str::trim`, which strips any Unicode
    // white-space around each pair, not just spaces
    let mut headers = Headers::new();
    headers.set("Cookie", "\u{a0}foo=bar\u{a0};\u{2003}color=green\t");
    let req = request_with_headers(headers);
    assert_eq!(req.get_cookie_value("foo").unwrap(), "bar");
    assert_eq!(req.get_cookie_value("color").unwrap(), "green");
}

#[test]
fn req_cookie_empty_value() {
    let mut headers = Headers::new();
    headers.set("Cookie", "foo=");
    let req = request_with_headers(headers);
    assert_eq!(req.get_cookie_value("foo").unwrap(), "");
}

#[test]
fn req_json_decodes_body() {
    let req = Request::new(
        Method::POST,
        url::Url::parse("https://www.example.com/api").unwrap(),
        Headers::new(),
        Some(br#"{"a":1}"#.to_vec()),
    );
    let v = req.json().unwrap();
    assert_eq!(v.get("a").unwrap().as_i64(), Some(1));
}

#[test]
fn req_json_empty_body() {
    let req = request_with_headers(Headers::new());
    match req.json() {
        Err(Error::Other(m)) => assert_eq!(m, "body is empty"),
        _ => panic!("expected the empty-body error"),
    }
}

#[test]
fn req_json_invalid_body() {
    let req = Request::new(
        Method::POST,
        url::Url::parse("https://www.example.com/api").unwrap(),
        Headers::new(),
        Some(b"not json".to_vec()),
    );
    match req.json() {
        Err(Error::Json(_)) => {}
        _ => panic!("expected a json error"),
    }
}
