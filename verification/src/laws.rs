//! The crate's general guarantees, stated once over the spec model and
//! proved, so a reader need not reassemble them from individual contracts.

use crate::cache::CacheHeaders;
use crate::error::{FetchError, FetchFeedError, ParseFeedError};
use crate::feed::{feed_of, spec_feed_key, spec_feed_outcome, ItemIdentity, ParsedFeed};
use crate::fetcher::{
    spec_extracted_headers, spec_next_fetch, spec_sat_add, spec_status_class, FetchOutcome,
    FetchPlan, FetchPlanInput, RawResponse, StatusClass, BACKOFF_MARGIN_SECS,
    DEFAULT_BACKOFF_SECS,
};
use crate::hash::spec_str_fingerprint;
use crate::scheduler::FeedFetcher;
use crate::store::FingerprintStore;
use vstd::prelude::*;

verus! {

/// After a rate-limit outcome that names no retry duration, the source's
/// next eligible instant is exactly `now` plus the default backoff plus the
/// safety margin, and a tick at any earlier instant finds the source not
/// due, so no fetch is performed.
pub proof fn lemma_rate_limit_default_pause(
    base_interval: u64,
    prior: CacheHeaders,
    now: u64,
    t: u64,
)
    requires
        now + DEFAULT_BACKOFF_SECS + BACKOFF_MARGIN_SECS <= u64::MAX,
    ensures
        spec_next_fetch(
            base_interval,
            Some(FetchPlanInput::Retry { retry_after: None, headers: prior }),
            now,
        ).time == now + DEFAULT_BACKOFF_SECS + BACKOFF_MARGIN_SECS,
        t < now + DEFAULT_BACKOFF_SECS + BACKOFF_MARGIN_SECS ==> !FeedFetcher::spec_due(
            Some(
                spec_next_fetch(
                    base_interval,
                    Some(FetchPlanInput::Retry { retry_after: None, headers: prior }),
                    now,
                ),
            ),
            t,
        ),
{
}

/// A first observation of a source records its fingerprint but decides
/// `FirstSeen`, never a change; observing the identical fingerprint next
/// decides `Unchanged`; observing a different one next decides `Changed` —
/// and by `check_feed_updated`'s contract a notification fires exactly on a
/// `Changed` decision, so the first observation never notifies and a changed
/// second one notifies exactly once.
pub proof fn lemma_observation_sequence(a: u64, b: u64)
    ensures
        FingerprintStore::spec_observe(None, Some(a)) == (
            Some(a),
            crate::store::ChangeDecision::FirstSeen,
        ),
        FingerprintStore::spec_observe(
            FingerprintStore::spec_observe(None, Some(a)).0,
            Some(a),
        ).1 is Unchanged,
        a != b ==> FingerprintStore::spec_observe(
            FingerprintStore::spec_observe(None, Some(a)).0,
            Some(b),
        ) == (Some(b), crate::store::ChangeDecision::Changed),
        FingerprintStore::spec_observe(Some(a), None).1 is Unchanged,
{
}

/// For any response that carries an entity tag, the validators extracted
/// from it keep that tag, and the next request's conditional header is the
/// entity-tag one: the last-modified header — present in the same response
/// or left in the stale validators — contributes nothing.
pub proof fn lemma_etag_precedence(r: RawResponse)
    requires
        r.etag is Some,
    ensures
        spec_extracted_headers(r).spec_header_choice().0 == Some(r.etag->0@),
        spec_extracted_headers(r).spec_header_choice().1 is None,
{
}

/// A newest item that carries a unique identifier is fingerprinted from
/// that identifier alone: two items agreeing on the identifier get the same
/// fingerprint, whatever their publication dates or permalinks.
pub proof fn lemma_identifier_pins_fingerprint(a: ItemIdentity, b: ItemIdentity)
    requires
        a.guid is Some,
        b.guid is Some,
        a.guid->0@ == b.guid->0@,
    ensures
        spec_feed_key(ParsedFeed::ItemFeed { first: Some(a) }) == spec_feed_key(
            ParsedFeed::ItemFeed { first: Some(b) },
        ),
        spec_feed_key(ParsedFeed::ItemFeed { first: Some(a) }) == Ok::<u64, ParseFeedError>(
            spec_str_fingerprint(a.guid->0@),
        ),
{
}

/// A feed body that parses but holds zero items fails with `Empty`; the
/// plan still advances one base interval, and its validators become exactly
/// the ones the failing response carried — in particular, where the
/// response repeats the prior validators, they stand untouched.
pub proof fn lemma_empty_feed_outcome(
    r: RawResponse,
    base_interval: u64,
    prior: Option<FetchPlan>,
    now: u64,
)
    requires
        spec_status_class(r.status) is Fresh,
        r.body matches Some(b) && feed_of(b@) matches Some(pf) && spec_feed_key(pf) == Err::<
            u64,
            ParseFeedError,
        >(ParseFeedError::Empty),
    ensures
        spec_feed_outcome(Some(r)) == (FetchOutcome::Failed {
            headers: spec_extracted_headers(r),
            error: FetchError::Feed(FetchFeedError::Parse(ParseFeedError::Empty)),
        }),
        spec_next_fetch(
            base_interval,
            Some(
                FeedFetcher::spec_plan_input(
                    spec_feed_outcome(Some(r)),
                    FeedFetcher::spec_prior_headers(prior),
                ),
            ),
            now,
        ) == (FetchPlan {
            time: spec_sat_add(now, base_interval),
            headers: spec_extracted_headers(r),
        }),
{
}

} // verus!
