use wasm_service::{Body, Error, Response};

#[test]
fn response_defaults() {
    let resp = Response::default();
    assert_eq!(resp.get_status(), 200);
    assert_eq!(resp.get_body().len(), 0);
    assert_eq!(resp.is_empty(), true);
    assert!(resp.get_headers().is_none());
}

#[test]
fn response_unset_status() {
    let mut resp = Response::default();
    assert_eq!(resp.is_unset(), true);

    resp.status(200); // any status change, even 200, should make unset false
    assert_eq!(resp.is_unset(), false);
}

#[test]
fn response_unset_body() {
    let mut resp = Response::default();
    assert_eq!(resp.is_unset(), true);

    resp.body(Body::from_text("")); // any body change, even empty, should make unset false
    assert_eq!(resp.is_unset(), false);
}

#[test]
fn response_unset_survives_header_ops() {
    let mut resp = Response::default();
    resp.header("X-One", "1").unwrap();
    resp.content_type("text/plain").unwrap();
    assert_eq!(resp.is_unset(), true);

    resp.text("now answered");
    assert_eq!(resp.is_unset(), false);

    // once cleared, header operations never restore it
    resp.header("X-Two", "2").unwrap();
    assert_eq!(resp.is_unset(), false);
}

#[test]
fn response_body_empty() {
    let mut resp = Response::default();
    assert_eq!(resp.is_empty(), true);
    resp.body(Body::from_text("x"));
    assert_eq!(resp.is_empty(), false);
}

#[test]
fn response_body_into() {
    let mut resp = Response::default();

    // from text
    resp.body(Body::from_text("hello"));
    assert_eq!(resp.get_body(), b"hello");

    // from a byte vector
    let v: Vec<u8> = vec![1, 1, 2, 3, 5, 8];
    resp.body(Body::from_vec(v.clone()));
    assert_eq!(resp.get_body(), &v);

    // empty
    resp.body(Body::empty());
    assert_eq!(resp.get_body(), b"");
}

#[test]
fn response_text() {
    let mut resp = Response::default();
    resp.status(201).text("hello");
    assert_eq!(resp.get_status(), 201);
    assert_eq!(resp.get_body(), b"hello");
    assert_eq!(resp.is_empty(), false);
}

#[test]
fn response_bin() {
    let mut resp = Response::default();
    resp.status(202).body(Body::from_text("bytes"));
    assert_eq!(resp.get_status(), 202);
    assert_eq!(resp.get_body(), b"bytes");
    assert_eq!(resp.is_empty(), false);
}

#[test]
fn response_headers() {
    let mut resp = Response::default();
    resp.header("Content-Type", "application/json").expect("set-header");

    let headers = resp.get_headers().expect("headers created");
    let sv = headers.get("Content-Type");
    assert!(sv.is_some(), "is-defined content-type");
    assert_eq!(sv.unwrap(), "application/json", "content-type value");
}

#[test]
fn response_header_rejects_non_ascii_value() {
    let mut resp = Response::default();
    match resp.header("X-Name", "caf\u{e9}") {
        Err(Error::InvalidHeaderValue(v)) => assert_eq!(v, "caf\u{e9}"),
        _ => panic!("expected an invalid-header-value error"),
    }
    // the failed call changed nothing
    assert!(resp.get_headers().is_none());
    assert!(resp.is_unset());
}

#[test]
fn response_json_sets_body_and_content_type() {
    let mut map = serde_json::Map::new();
    map.insert("ok".to_string(), serde_json::Value::Bool(true));
    let value = serde_json::Value::Object(map);

    let mut resp = Response::default();
    resp.json(&value).unwrap();
    assert_eq!(resp.get_body(), br#"{"ok":true}"#);
    assert_eq!(resp.is_unset(), false);
    let headers = resp.get_headers().unwrap();
    assert_eq!(headers.get("content-type").unwrap(), "application/json");
}
