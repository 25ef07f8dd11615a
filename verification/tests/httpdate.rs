use wasm_service::{Error, HttpDate};

#[test]
fn httpdate_timestamp() {
    let d = HttpDate::from(1424301369u64);
    assert_eq!(d.timestamp(), 1424301369);
    let d = HttpDate::from(1424301369i64);
    assert_eq!(d.timestamp(), 1424301369);
}

#[test]
fn httpdate_parse_rfc2822() {
    let d = HttpDate::parse("Wed, 18 Feb 2015 23:16:09 GMT").unwrap();
    assert_eq!(d.timestamp(), 1424301369);
}

#[test]
fn httpdate_parse_rejects_garbage() {
    match HttpDate::parse("not a date") {
        Err(Error::Other(m)) => assert_eq!(m, "invalid rfc2822 date"),
        _ => panic!("expected a parse failure"),
    }
}

#[test]
fn httpdate_format_rfc2822() {
    let d = HttpDate::from(1424301369u64);
    assert_eq!(d.rfc2822(), "Wed, 18 Feb 2015 23:16:09 +0000");
}

#[test]
fn httpdate_format_parse_round_trip() {
    let d = HttpDate::from(1424301369u64);
    let rendered = d.rfc2822();
    let back = HttpDate::parse(&rendered).unwrap();
    assert_eq!(back.timestamp(), d.timestamp());
}

#[test]
fn httpdate_ordering() {
    assert!(HttpDate::from(10u64) < HttpDate::from(20u64));
    assert_eq!(HttpDate::from(10u64), HttpDate::from(10i64));
}
