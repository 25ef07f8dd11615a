use wasm_service::{Error, Method};

#[test]
fn method_str() {
    // name() round trip
    assert_eq!(Method::from("GET").unwrap().name(), "GET");
    assert_eq!(Method::from("POST").unwrap().name(), "POST");
    assert_eq!(Method::from("PUT").unwrap().name(), "PUT");
    assert_eq!(Method::from("DELETE").unwrap().name(), "DELETE");
    assert_eq!(Method::from("HEAD").unwrap().name(), "HEAD");
    assert_eq!(Method::from("OPTIONS").unwrap().name(), "OPTIONS");

    // PartialEq
    assert!(Method::from("GET").unwrap() == Method::GET);

    // Debug
    assert_eq!(format!("{:?}", Method::PUT), "PUT");
}

#[test]
fn method_parse() {
    assert!(Method::from("HEAD").is_ok());
    assert!(Method::from("none").is_err());
}

#[test]
fn method_parse_lowercase() {
    assert_eq!(Method::from("get").unwrap(), Method::GET);
    assert_eq!(Method::from("post").unwrap(), Method::POST);
    assert_eq!(Method::from("put").unwrap(), Method::PUT);
    assert_eq!(Method::from("delete").unwrap(), Method::DELETE);
    assert_eq!(Method::from("head").unwrap(), Method::HEAD);
    assert_eq!(Method::from("options").unwrap(), Method::OPTIONS);
}

#[test]
fn method_parse_rejects_mixed_case_and_bogus() {
    assert!(Method::from("Get").is_err());
    assert!(Method::from("bogus").is_err());
    assert!(Method::from("").is_err());
    match Method::from("bogus") {
        Err(Error::Other(m)) => assert_eq!(m, "Unsupported http method"),
        _ => panic!("expected an unsupported-method error"),
    }
}
