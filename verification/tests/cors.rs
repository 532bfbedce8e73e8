use fluent_playground::cors::cors_headers_for;

#[test]
fn trusted_origin_gets_the_permissive_headers() {
    let h = cors_headers_for(Some("https://projectfluent.org")).unwrap();
    assert_eq!(h.allow_origin, "https://projectfluent.org");
    assert_eq!(h.allow_methods, "GET, POST");
    assert_eq!(h.allow_headers, "Content-Type");
    assert!(!h.allow_credentials);
    assert_eq!(h.max_age_seconds, 3600);
}

#[test]
fn other_origin_gets_no_headers() {
    assert!(cors_headers_for(Some("https://example.org")).is_none());
}

#[test]
fn prefix_of_the_trusted_origin_gets_no_headers() {
    assert!(cors_headers_for(Some("https://projectfluent.or")).is_none());
}

#[test]
fn absent_origin_gets_no_headers() {
    assert!(cors_headers_for(None).is_none());
}
