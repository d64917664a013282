use feedwatch::error::{FetchError, FetchFeedError, ParseFeedError};
use feedwatch::feed::feed_outcome;
use feedwatch::fetcher::{FetchOutcome, RawResponse};

fn rss(items: &str) -> String {
    format!(
        "<rss version=\"2.0\"><channel><title>T</title><link>http://e.example</link>\
         <description>D</description>{}</channel></rss>",
        items
    )
}

fn resp(status: u16, body: Option<&str>) -> RawResponse {
    RawResponse {
        status,
        etag: None,
        last_modified: None,
        retry_after: None,
        body: body.map(String::from),
    }
}

fn fetched_fp(o: FetchOutcome) -> u64 {
    match o {
        FetchOutcome::Fetched { fingerprint, .. } => fingerprint,
        other => panic!("expected a fetched outcome, got {:?}", other),
    }
}

fn failed_error(o: FetchOutcome) -> FetchError {
    match o {
        FetchOutcome::Failed { error, .. } => error,
        other => panic!("expected a failed outcome, got {:?}", other),
    }
}

#[test]
fn fingerprint_uses_the_identifier_alone() {
    let a = fetched_fp(feed_outcome(Some(resp(
        200,
        Some(&rss(
            "<item><guid>g1</guid><pubDate>Wed, 21 Oct 2015 07:28:00 GMT</pubDate>\
             <link>http://a.example</link></item>",
        )),
    ))));
    let b = fetched_fp(feed_outcome(Some(resp(
        200,
        Some(&rss(
            "<item><guid>g1</guid><pubDate>Thu, 22 Oct 2015 09:00:00 GMT</pubDate>\
             <link>http://b.example</link></item>",
        )),
    ))));
    let c = fetched_fp(feed_outcome(Some(resp(
        200,
        Some(&rss(
            "<item><guid>g2</guid><pubDate>Wed, 21 Oct 2015 07:28:00 GMT</pubDate>\
             <link>http://a.example</link></item>",
        )),
    ))));
    assert_eq!(a, b);
    assert_ne!(a, c);
}

#[test]
fn publication_date_is_second_choice() {
    let a = fetched_fp(feed_outcome(Some(resp(
        200,
        Some(&rss(
            "<item><pubDate>Wed, 21 Oct 2015 07:28:00 GMT</pubDate>\
             <link>http://a.example</link></item>",
        )),
    ))));
    let b = fetched_fp(feed_outcome(Some(resp(
        200,
        Some(&rss(
            "<item><pubDate>Wed, 21 Oct 2015 07:28:00 GMT</pubDate>\
             <link>http://b.example</link></item>",
        )),
    ))));
    let link_only = fetched_fp(feed_outcome(Some(resp(
        200,
        Some(&rss("<item><link>http://a.example</link></item>")),
    ))));
    assert_eq!(a, b);
    assert_ne!(a, link_only);
}

#[test]
fn only_the_newest_item_counts() {
    let a = fetched_fp(feed_outcome(Some(resp(
        200,
        Some(&rss("<item><guid>g1</guid></item><item><guid>old1</guid></item>")),
    ))));
    let b = fetched_fp(feed_outcome(Some(resp(
        200,
        Some(&rss("<item><guid>g1</guid></item><item><guid>old2</guid></item>")),
    ))));
    assert_eq!(a, b);
}

#[test]
fn entry_oriented_feed_uses_the_entry_id() {
    let atom = |id: &str, title: &str| {
        format!(
            "<feed xmlns=\"http://www.w3.org/2005/Atom\"><title>T</title><id>f</id>\
             <updated>2015-10-21T07:28:00Z</updated><entry><title>{}</title><id>{}</id>\
             <updated>2015-10-21T07:28:00Z</updated></entry></feed>",
            title, id
        )
    };
    let a = fetched_fp(feed_outcome(Some(resp(200, Some(&atom("e1", "one"))))));
    let b = fetched_fp(feed_outcome(Some(resp(200, Some(&atom("e1", "two"))))));
    let c = fetched_fp(feed_outcome(Some(resp(200, Some(&atom("e2", "one"))))));
    assert_eq!(a, b);
    assert_ne!(a, c);
}

#[test]
fn empty_feed_fails_empty() {
    let e = failed_error(feed_outcome(Some(resp(200, Some(&rss(""))))));
    assert_eq!(e, FetchError::Feed(FetchFeedError::Parse(ParseFeedError::Empty)));
}

#[test]
fn item_without_identity_fields_fails() {
    let e = failed_error(feed_outcome(Some(resp(
        200,
        Some(&rss("<item><title>just a title</title></item>")),
    ))));
    assert_eq!(e, FetchError::Feed(FetchFeedError::Parse(ParseFeedError::MissingKey)));
}

#[test]
fn unparseable_body_fails_parse() {
    let e = failed_error(feed_outcome(Some(resp(200, Some("this is no feed")))));
    assert_eq!(e, FetchError::Feed(FetchFeedError::Parse(ParseFeedError::Parse)));
}

#[test]
fn not_modified_skips_fingerprinting() {
    let o = feed_outcome(Some(resp(304, None)));
    assert!(matches!(o, FetchOutcome::Unmodified { .. }));
}

#[test]
fn rate_limit_reads_the_retry_header() {
    let mut r = resp(429, None);
    r.retry_after = Some("120".to_string());
    match feed_outcome(Some(r)) {
        FetchOutcome::RateLimited { retry_after } => assert_eq!(retry_after, Some(120)),
        other => panic!("expected rate limited, got {:?}", other),
    }
    let mut r = resp(429, None);
    r.retry_after = Some("soon".to_string());
    match feed_outcome(Some(r)) {
        FetchOutcome::RateLimited { retry_after } => assert_eq!(retry_after, None),
        other => panic!("expected rate limited, got {:?}", other),
    }
    match feed_outcome(Some(resp(429, None))) {
        FetchOutcome::RateLimited { retry_after } => assert_eq!(retry_after, None),
        other => panic!("expected rate limited, got {:?}", other),
    }
}

#[test]
fn other_statuses_fail_by_class() {
    assert_eq!(
        failed_error(feed_outcome(Some(resp(404, None)))),
        FetchError::Feed(FetchFeedError::ClientError(404))
    );
    assert_eq!(
        failed_error(feed_outcome(Some(resp(503, None)))),
        FetchError::Feed(FetchFeedError::ServerError(503))
    );
}

#[test]
fn transport_failures_are_network_errors() {
    assert_eq!(failed_error(feed_outcome(None)), FetchError::Feed(FetchFeedError::Network));
    assert_eq!(
        failed_error(feed_outcome(Some(resp(200, None)))),
        FetchError::Feed(FetchFeedError::Network)
    );
}

#[test]
fn response_validators_are_extracted() {
    let mut r = resp(200, Some(&rss("<item><guid>g1</guid></item>")));
    r.etag = Some("\"e1\"".to_string());
    r.last_modified = Some("Wed, 21 Oct 2015 07:28:00 GMT".to_string());
    match feed_outcome(Some(r)) {
        FetchOutcome::Fetched { headers, .. } => {
            assert_eq!(headers.etag.as_deref(), Some("\"e1\""));
            assert_eq!(headers.last_modified, Some(1445412480));
        },
        other => panic!("expected a fetched outcome, got {:?}", other),
    }
}
