use httproute::Headers;

fn pairs(list: &[(&str, &[u8])]) -> Vec<(Vec<u8>, Vec<u8>)> {
    list.iter().map(|(n, v)| (n.as_bytes().to_vec(), v.to_vec())).collect()
}

#[test]
fn iteration_preserves_pairs_and_order() {
    let supplied = pairs(&[
        ("Content-Type", b"text/html"),
        ("Host", b"example.test"),
        ("Content-Length", b"11"),
    ]);
    let headers = Headers::record(&supplied);
    let seen = headers.iter();
    assert_eq!(seen.len(), 3);
    assert_eq!(seen[0], ("Content-Type".to_string(), "text/html".to_string()));
    assert_eq!(seen[1], ("Host".to_string(), "example.test".to_string()));
    assert_eq!(seen[2], ("Content-Length".to_string(), "11".to_string()));
}

#[test]
fn lookup_is_case_insensitive() {
    let headers = Headers::record(&pairs(&[("Content-Type", b"text/html")]));
    assert_eq!(headers.get_first("content-type"), Some("text/html".to_string()));
    assert_eq!(headers.get_first("CONTENT-TYPE"), Some("text/html".to_string()));
    assert_eq!(headers.get_first("Content-Type"), Some("text/html".to_string()));
    assert_eq!(headers.get_first("content-length"), None);
}

#[test]
fn lookup_returns_the_first_match() {
    let headers = Headers::record(&pairs(&[("Accept", b"text/html"), ("accept", b"text/plain")]));
    assert_eq!(headers.get_first("ACCEPT"), Some("text/html".to_string()));
}

#[test]
fn invalid_utf8_values_are_skipped() {
    let headers = Headers::record(&pairs(&[
        ("Bad", b"\xff\xfe"),
        ("Good", b"fine"),
    ]));
    let seen = headers.iter();
    assert_eq!(seen.len(), 1);
    assert_eq!(seen[0], ("Good".to_string(), "fine".to_string()));
    // A matching name whose value does not decode is skipped by lookup too.
    assert_eq!(headers.get_first("Bad"), None);
}

#[test]
fn empty_header_list() {
    let headers = Headers::empty();
    assert_eq!(headers.iter().len(), 0);
    assert_eq!(headers.get_first("anything"), None);
}
