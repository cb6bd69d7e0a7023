use httproute::StatusCode;

#[test]
fn from_u16_accepts_the_valid_range() {
    let ok = StatusCode::from_u16(200).unwrap();
    assert_eq!(ok.as_u16(), 200);
    assert_eq!(StatusCode::from_u16(100).unwrap().as_u16(), 100);
    assert_eq!(StatusCode::from_u16(999).unwrap().as_u16(), 999);
}

#[test]
fn from_u16_rejects_out_of_range() {
    assert!(StatusCode::from_u16(99).is_err());
    assert!(StatusCode::from_u16(1000).is_err());
    assert!(StatusCode::from_u16(0).is_err());
}

#[test]
fn from_bytes_reads_three_digits() {
    assert_eq!(StatusCode::from_bytes(b"404").unwrap().as_u16(), 404);
    assert_eq!(StatusCode::from_bytes(b"200").unwrap().as_u16(), 200);
    assert_eq!(StatusCode::from_bytes(b"999").unwrap().as_u16(), 999);
}

#[test]
fn from_bytes_rejects_bad_shapes() {
    assert!(StatusCode::from_bytes(b"0 4").is_err());
    assert!(StatusCode::from_bytes(b"04").is_err());
    assert!(StatusCode::from_bytes(b"4040").is_err());
    assert!(StatusCode::from_bytes(b"044").is_err());
    assert!(StatusCode::from_bytes(b"").is_err());
}

#[test]
fn canonical_reason_matches_the_registry() {
    assert_eq!(StatusCode::from_u16(200).unwrap().canonical_reason(), Some("OK"));
    assert_eq!(StatusCode::from_u16(404).unwrap().canonical_reason(), Some("Not Found"));
    assert_eq!(
        StatusCode::from_u16(500).unwrap().canonical_reason(),
        Some("Internal Server Error")
    );
    assert_eq!(StatusCode::from_u16(418).unwrap().canonical_reason(), Some("I'm a teapot"));
    assert_eq!(StatusCode::from_u16(299).unwrap().canonical_reason(), None);
}

#[test]
fn classification_predicates() {
    let ok = StatusCode::from_u16(200).unwrap();
    assert!(ok.is_success());
    assert!(!ok.is_informational());
    assert!(!ok.is_redirection());
    assert!(!ok.is_client_error());
    assert!(!ok.is_server_error());
    assert!(StatusCode::from_u16(100).unwrap().is_informational());
    assert!(StatusCode::from_u16(301).unwrap().is_redirection());
    assert!(StatusCode::from_u16(404).unwrap().is_client_error());
    assert!(StatusCode::from_u16(503).unwrap().is_server_error());
}

#[test]
fn default_status_is_ok() {
    assert_eq!(StatusCode::default().as_u16(), 200);
}
