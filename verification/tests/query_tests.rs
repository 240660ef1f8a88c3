use varcavia::query::{decimal_string, search_facts_path, urlencoded, verify_fact_path};

#[test]
fn test_urlencoded() {
    assert_eq!(urlencoded("hello world"), "hello+world");
    assert_eq!(urlencoded("a&b=c"), "a%26b%3Dc");
}

#[test]
fn urlencoded_keeps_unreserved_and_encodes_utf8_bytes() {
    assert_eq!(urlencoded("A-z_0.9~"), "A-z_0.9~");
    assert_eq!(urlencoded("é"), "%C3%A9");
    assert_eq!(urlencoded(""), "");
}

#[test]
fn tool_request_paths() {
    assert_eq!(verify_fact_path("Earth diameter is 12742 km"), "/api/v1/verify?fact=Earth+diameter+is+12742+km");
    assert_eq!(search_facts_path("water & ice", None), "/api/v1/search?q=water+%26+ice&limit=5");
    assert_eq!(search_facts_path("x", Some(7)), "/api/v1/search?q=x&limit=7");
    assert_eq!(search_facts_path("x", Some(500)), "/api/v1/search?q=x&limit=20");
    assert_eq!(decimal_string(0), "0");
    assert_eq!(decimal_string(1234567890), "1234567890");
    assert_eq!(decimal_string(u64::MAX), u64::MAX.to_string());
}
