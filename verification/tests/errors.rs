use wasm_service::Error;

#[test]
fn error_messages() {
    assert_eq!(Error::Other("plain".to_string()).message(), "plain");
    assert_eq!(Error::Js("boom".to_string()).message(), "javascript error: boom");
    assert_eq!(
        Error::InvalidHeaderValue("caf\u{e9}".to_string()).message(),
        "invalid header value: caf\u{e9}"
    );
    assert_eq!(
        Error::NoStaticAsset("img/x.png".to_string()).message(),
        "no static asset: img/x.png"
    );
    assert_eq!(
        Error::KVKeyNotFound("img/x.png".to_string(), 404).message(),
        "kv key not found: img/x.png status 404"
    );
    assert_eq!(Error::Http("timeout".to_string()).message(), "http error: timeout");
    assert_eq!(Error::KVApi("denied".to_string()).message(), "kv api error: denied");
    assert_eq!(
        Error::DeserializeAssets("bad index".to_string()).message(),
        "asset index error: bad index"
    );
    assert_eq!(Error::Json("eof".to_string()).message(), "json error: eof");
}

#[test]
fn error_from_string() {
    let e = Error::from("oops".to_string());
    assert!(matches!(e, Error::Other(m) if m == "oops"));
}
