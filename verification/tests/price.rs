use aptos_indexer_processor_example::price::{is_success_status, price_text};

#[test]
fn success_range_is_2xx() {
    assert!(is_success_status(200));
    assert!(is_success_status(204));
    assert!(is_success_status(299));
    assert!(!is_success_status(199));
    assert!(!is_success_status(300));
    assert!(!is_success_status(404));
    assert!(!is_success_status(500));
}

#[test]
fn price_is_read_from_ticker_body() {
    let body = br#"{"symbol":"APTUSDT","price":"8.12000000"}"#;
    assert_eq!(price_text(200, body), Some("8.12000000".to_string()));
}

#[test]
fn failed_status_gives_no_price() {
    let body = br#"{"symbol":"APTUSDT","price":"8.12000000"}"#;
    assert_eq!(price_text(404, body), None);
    assert_eq!(price_text(500, body), None);
}

#[test]
fn body_without_price_gives_none() {
    assert_eq!(price_text(200, br#"{"symbol":"APTUSDT"}"#), None);
}

#[test]
fn numeric_price_gives_none() {
    assert_eq!(price_text(200, br#"{"price":8.12}"#), None);
}

#[test]
fn invalid_json_gives_none() {
    assert_eq!(price_text(200, b"not json"), None);
    assert_eq!(price_text(200, b""), None);
}

#[test]
fn non_object_json_gives_none() {
    assert_eq!(price_text(200, br#"["price","1"]"#), None);
    assert_eq!(price_text(200, br#""price""#), None);
}
