//! The syndication reader: a feed body, in either dialect, reduced to the
//! fingerprint of its newest item.

use crate::error::{FetchError, FetchFeedError, ParseFeedError};
use crate::fetcher::{
    spec_extracted_headers, spec_retry_after, spec_status_class, classify_status, parse_u64_digits,
    FetchOutcome, RawResponse, StatusClass,
};
use crate::cache::CacheHeaders;
use crate::dates::parse_rfc2822;
use crate::hash::{spec_str_fingerprint, str_fingerprint};
use std::str::FromStr;
use vstd::prelude::*;

verus! {

/// The identity fields of the newest item of an item-oriented feed.
#[derive(Debug)]
pub struct ItemIdentity {
    pub guid: Option<String>,
    pub pub_date: Option<String>,
    pub link: Option<String>,
}

/// A feed body reduced to what fingerprinting reads: the dialect, and the
/// newest item or entry in document order.
#[derive(Debug)]
pub enum ParsedFeed {
    /// The item-oriented dialect; `first` is absent on a feed with zero
    /// items.
    ItemFeed { first: Option<ItemIdentity> },
    /// The entry-oriented dialect; `first_id` is absent on a feed with zero
    /// entries.
    EntryFeed { first_id: Option<String> },
}

/// What a feed body parses to, in either dialect; absent where it parses as
/// neither.
pub uninterp spec fn feed_of(s: Seq<char>) -> Option<ParsedFeed>;

/// Relies on `syndication::Feed::from_str`, which tries the entry-oriented
/// dialect first and the item-oriented one second: the outcome depends on
/// the text alone. Only the first item's identity fields are kept.
#[verifier::external_body]
pub(crate) fn parse_feed(body: &str) -> (r: Option<ParsedFeed>)
    ensures
        r == feed_of(body@),
{
    match syndication::Feed::from_str(body) {
        Ok(syndication::Feed::RSS(c)) => Some(ParsedFeed::ItemFeed {
            first: c.items().first().map(
                |i| ItemIdentity {
                    guid: i.guid().map(|g| g.value().to_owned()),
                    pub_date: i.pub_date().map(|d| d.to_owned()),
                    link: i.link().map(|l| l.to_owned()),
                },
            ),
        }),
        Ok(syndication::Feed::Atom(f)) => Some(ParsedFeed::EntryFeed {
            first_id: f.entries().first().map(|e| e.id().to_owned()),
        }),
        Err(_) => None,
    }
}

/// The hash input of the newest item, in strict priority order: the unique
/// identifier, else the publication date, else the permalink; the first
/// available wins and nothing else is mixed in.
pub open spec fn spec_feed_key(f: ParsedFeed) -> Result<u64, ParseFeedError> {
    match f {
        ParsedFeed::ItemFeed { first: None } => Err(ParseFeedError::Empty),
        ParsedFeed::ItemFeed { first: Some(item) } => match item.guid {
            Some(g) => Ok(spec_str_fingerprint(g@)),
            None => match item.pub_date {
                Some(d) => Ok(spec_str_fingerprint(d@)),
                None => match item.link {
                    Some(l) => Ok(spec_str_fingerprint(l@)),
                    None => Err(ParseFeedError::MissingKey),
                },
            },
        },
        ParsedFeed::EntryFeed { first_id: None } => Err(ParseFeedError::Empty),
        ParsedFeed::EntryFeed { first_id: Some(id) } => Ok(spec_str_fingerprint(id@)),
    }
}

/// Fingerprints a parsed feed's newest item.
pub fn feed_key(f: &ParsedFeed) -> (r: Result<u64, ParseFeedError>)
    ensures
        r == spec_feed_key(*f),
{
    match f {
        ParsedFeed::ItemFeed { first: None } => Err(ParseFeedError::Empty),
        ParsedFeed::ItemFeed { first: Some(item) } => match &item.guid {
            Some(g) => Ok(str_fingerprint(g.as_str())),
            None => match &item.pub_date {
                Some(d) => Ok(str_fingerprint(d.as_str())),
                None => match &item.link {
                    Some(l) => Ok(str_fingerprint(l.as_str())),
                    None => Err(ParseFeedError::MissingKey),
                },
            },
        },
        ParsedFeed::EntryFeed { first_id: None } => Err(ParseFeedError::Empty),
        ParsedFeed::EntryFeed { first_id: Some(id) } => Ok(str_fingerprint(id.as_str())),
    }
}

/// What a syndication fetch comes to, given the transport's raw result;
/// absent input means the transport itself failed.
pub open spec fn spec_feed_outcome(resp: Option<RawResponse>) -> FetchOutcome {
    match resp {
        None => FetchOutcome::Failed {
            headers: CacheHeaders::spec_empty(),
            error: FetchError::Feed(FetchFeedError::Network),
        },
        Some(r) => {
            let h = spec_extracted_headers(r);
            match spec_status_class(r.status) {
                StatusClass::RateLimit => FetchOutcome::RateLimited {
                    retry_after: spec_retry_after(r.retry_after),
                },
                StatusClass::NotModified => FetchOutcome::Unmodified { headers: h },
                StatusClass::ClientError => FetchOutcome::Failed {
                    headers: h,
                    error: FetchError::Feed(FetchFeedError::ClientError(r.status)),
                },
                StatusClass::ServerError => FetchOutcome::Failed {
                    headers: h,
                    error: FetchError::Feed(FetchFeedError::ServerError(r.status)),
                },
                StatusClass::Fresh => match r.body {
                    None => FetchOutcome::Failed {
                        headers: h,
                        error: FetchError::Feed(FetchFeedError::Network),
                    },
                    Some(b) => match feed_of(b@) {
                        None => FetchOutcome::Failed {
                            headers: h,
                            error: FetchError::Feed(
                                FetchFeedError::Parse(ParseFeedError::Parse),
                            ),
                        },
                        Some(pf) => match spec_feed_key(pf) {
                            Ok(k) => FetchOutcome::Fetched { headers: h, fingerprint: k },
                            Err(e) => FetchOutcome::Failed {
                                headers: h,
                                error: FetchError::Feed(FetchFeedError::Parse(e)),
                            },
                        },
                    },
                },
            }
        },
    }
}

/// Reduces a syndication fetch's raw result to an outcome: the rate-limit
/// status wins over everything, conditional caching skips fingerprinting
/// entirely, other non-fresh statuses fail by class, and a fresh body is
/// parsed and fingerprinted.
pub fn feed_outcome(resp: Option<RawResponse>) -> (r: FetchOutcome)
    ensures
        r == spec_feed_outcome(resp),
{
    let raw = match resp {
        None => {
            return FetchOutcome::Failed {
                headers: CacheHeaders { etag: None, last_modified: None },
                error: FetchError::Feed(FetchFeedError::Network),
            };
        },
        Some(raw) => raw,
    };
    let RawResponse { status, etag, last_modified, retry_after, body } = raw;
    let parsed_lm: Option<i64> = match &last_modified {
        Some(s) => parse_rfc2822(s.as_str()),
        None => None,
    };
    let headers = CacheHeaders { etag, last_modified: parsed_lm };
    match classify_status(status) {
        StatusClass::RateLimit => {
            let after: Option<u64> = match &retry_after {
                Some(s) => parse_u64_digits(s.as_str()),
                None => None,
            };
            FetchOutcome::RateLimited { retry_after: after }
        },
        StatusClass::NotModified => FetchOutcome::Unmodified { headers },
        StatusClass::ClientError => FetchOutcome::Failed {
            headers,
            error: FetchError::Feed(FetchFeedError::ClientError(status)),
        },
        StatusClass::ServerError => FetchOutcome::Failed {
            headers,
            error: FetchError::Feed(FetchFeedError::ServerError(status)),
        },
        StatusClass::Fresh => match body {
            None => FetchOutcome::Failed {
                headers,
                error: FetchError::Feed(FetchFeedError::Network),
            },
            Some(b) => match parse_feed(b.as_str()) {
                None => FetchOutcome::Failed {
                    headers,
                    error: FetchError::Feed(FetchFeedError::Parse(ParseFeedError::Parse)),
                },
                Some(pf) => match feed_key(&pf) {
                    Ok(k) => FetchOutcome::Fetched { headers, fingerprint: k },
                    Err(e) => FetchOutcome::Failed {
                        headers,
                        error: FetchError::Feed(FetchFeedError::Parse(e)),
                    },
                },
            },
        },
    }
}

} // verus!
