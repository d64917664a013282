use feedwatch::cache::{CacheHeaders, ConditionalHeader};

#[test]
fn extracts_etag_verbatim_and_parses_last_modified() {
    let h = CacheHeaders::from_parts(
        Some("\"abc\"".to_string()),
        Some("Wed, 21 Oct 2015 07:28:00 GMT"),
    );
    assert_eq!(h.etag.as_deref(), Some("\"abc\""));
    assert_eq!(h.last_modified, Some(1445412480));
}

#[test]
fn numeric_offset_parses_too() {
    let h = CacheHeaders::from_parts(None, Some("Wed, 21 Oct 2015 08:28:00 +0100"));
    assert_eq!(h.last_modified, Some(1445412480));
}

#[test]
fn malformed_last_modified_degrades_to_absent() {
    let h = CacheHeaders::from_parts(None, Some("not a date"));
    assert!(h.last_modified.is_none());
    assert!(matches!(h.conditional_header(), ConditionalHeader::Unconditional));
}

#[test]
fn etag_takes_precedence_over_last_modified() {
    let h = CacheHeaders::from_parts(
        Some("\"abc\"".to_string()),
        Some("Wed, 21 Oct 2015 07:28:00 GMT"),
    );
    match h.conditional_header() {
        ConditionalHeader::IfNoneMatch(t) => assert_eq!(t, "\"abc\""),
        other => panic!("expected the entity-tag header, got {:?}", other),
    }
}

#[test]
fn last_modified_renders_per_rfc2822() {
    let h = CacheHeaders { etag: None, last_modified: Some(1445412480) };
    match h.conditional_header() {
        ConditionalHeader::IfModifiedSince(s) => {
            assert_eq!(s, "Wed, 21 Oct 2015 07:28:00 +0000")
        },
        other => panic!("expected the last-modified header, got {:?}", other),
    }
}

#[test]
fn no_validators_means_unconditional() {
    let h = CacheHeaders::default();
    assert!(h.etag.is_none());
    assert!(h.last_modified.is_none());
    assert!(matches!(h.conditional_header(), ConditionalHeader::Unconditional));
}
