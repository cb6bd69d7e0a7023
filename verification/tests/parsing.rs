use httproute::error::InvalidUrl;
use httproute::method::MethodKind;
use httproute::strutil::parse_usize_dec;
use httproute::Method;
use httproute::PathAndQuery;

#[test]
fn target_splits_path_and_query() {
    let paq = PathAndQuery::parse("/path?query").unwrap();
    assert_eq!(paq.path(), "/path");
    assert_eq!(paq.query(), Some("query"));
}

#[test]
fn target_without_query() {
    let paq = PathAndQuery::parse("/just/a/path").unwrap();
    assert_eq!(paq.path(), "/just/a/path");
    assert_eq!(paq.query(), None);
}

#[test]
fn empty_target_normalizes_to_slash() {
    let paq = PathAndQuery::parse("").unwrap();
    assert_eq!(paq.path(), "/");
    assert_eq!(paq.query(), None);
}

#[test]
fn fragment_is_discarded() {
    let paq = PathAndQuery::parse("/path?q=1#section").unwrap();
    assert_eq!(paq.path(), "/path");
    assert_eq!(paq.query(), Some("q=1"));

    let paq = PathAndQuery::parse("/path#section?notaquery").unwrap();
    assert_eq!(paq.path(), "/path");
    assert_eq!(paq.query(), None);
}

#[test]
fn query_may_contain_question_marks() {
    let paq = PathAndQuery::parse("/p?a?b").unwrap();
    assert_eq!(paq.path(), "/p");
    assert_eq!(paq.query(), Some("a?b"));
}

#[test]
fn tolerated_characters_are_accepted() {
    let paq = PathAndQuery::parse("/we{ird}\"quotes\"").unwrap();
    assert_eq!(paq.path(), "/we{ird}\"quotes\"");
}

#[test]
fn disallowed_byte_is_rejected() {
    assert!(matches!(
        PathAndQuery::parse("/sp ace"),
        Err(InvalidUrl::InvalidUrlCodePoint)
    ));
    assert!(matches!(
        PathAndQuery::parse("/p\u{e4}th"),
        Err(InvalidUrl::InvalidUrlCodePoint)
    ));
    assert!(matches!(
        PathAndQuery::parse("/a?b c"),
        Err(InvalidUrl::InvalidUrlCodePoint)
    ));
}

#[test]
fn non_ascii_after_fragment_is_fine() {
    let paq = PathAndQuery::parse("/a#\u{e4}").unwrap();
    assert_eq!(paq.path(), "/a");
}

#[test]
fn overlong_target_fails_before_validation() {
    // 65535 bytes, all of them invalid: the length check must win.
    let target: String = core::iter::repeat(' ').take(65535).collect();
    assert!(matches!(
        PathAndQuery::parse(target.as_str()),
        Err(InvalidUrl::TooLong)
    ));
    // One byte shorter, and validation speaks instead.
    let target: String = core::iter::repeat(' ').take(65534).collect();
    assert!(matches!(
        PathAndQuery::parse(target.as_str()),
        Err(InvalidUrl::InvalidUrlCodePoint)
    ));
}

#[test]
fn standard_method_tokens() {
    for token in ["GET", "PUT", "POST", "HEAD", "PATCH", "TRACE", "DELETE", "OPTIONS", "CONNECT"] {
        let m = Method::new(token).unwrap();
        assert_eq!(m.as_str(), token);
        assert!(!matches!(m.kind, MethodKind::Extension(_)));
    }
}

#[test]
fn unknown_method_token_becomes_extension() {
    let m = Method::new("PROPFIND").unwrap();
    assert_eq!(m.as_str(), "PROPFIND");
    assert!(matches!(m.kind, MethodKind::Extension(_)));
    // Method tokens are case-sensitive.
    let m = Method::new("get").unwrap();
    assert!(matches!(m.kind, MethodKind::Extension(_)));
}

#[test]
fn empty_method_token_is_rejected() {
    assert!(Method::new("").is_err());
}

#[test]
fn method_equality_is_by_canonical_token() {
    let a = Method::new("GET").unwrap();
    let b = Method::default();
    assert!(a.matches_token(&b));
    let c = Method::new("PROPFIND").unwrap();
    assert!(!a.matches_token(&c));
}

#[test]
fn decimal_parsing() {
    assert_eq!(parse_usize_dec(b"123"), Some(123));
    assert_eq!(parse_usize_dec(b"0"), Some(0));
    assert_eq!(parse_usize_dec(b""), None);
    assert_eq!(parse_usize_dec(b"12a"), None);
    assert_eq!(parse_usize_dec(b"99999999999999999999999999"), None);
}
