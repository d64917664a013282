//! Backoff planning and response classification: when a source becomes
//! eligible again, and what a raw transport result means for it.

use crate::cache::CacheHeaders;
use crate::dates::rfc2822_seconds_of;
use crate::error::FetchError;
use vstd::prelude::*;

verus! {

/// Seconds the planner waits after a rate-limit response that names no
/// retry duration.
pub const DEFAULT_BACKOFF_SECS: u64 = 21600;

/// Safety margin in seconds added to a rate-limit pause, compensating for
/// clock and processing skew so the source is never retried early.
pub const BACKOFF_MARGIN_SECS: u64 = 1;

/// Addition on second counts that clips at the top of the range instead of
/// overflowing.
pub open spec fn spec_sat_add(a: u64, b: u64) -> u64 {
    if a + b <= u64::MAX {
        (a + b) as u64
    } else {
        u64::MAX
    }
}

pub fn sat_add(a: u64, b: u64) -> (r: u64)
    ensures
        r == spec_sat_add(a, b),
{
    if a <= u64::MAX - b {
        a + b
    } else {
        u64::MAX
    }
}

/// A decimal digit.
pub open spec fn spec_is_digit(c: char) -> bool {
    48 <= c as u32 <= 57
}

pub open spec fn spec_all_digits(s: Seq<char>) -> bool {
    forall|i: int| 0 <= i < s.len() ==> spec_is_digit(#[trigger] s[i])
}

/// The number a digit string denotes, most significant digit first.
pub open spec fn spec_digits_value(s: Seq<char>) -> int
    decreases s.len(),
{
    if s.len() == 0 {
        0
    } else {
        spec_digits_value(s.drop_last()) * 10 + (s.last() as u32 - 48)
    }
}

/// What a numeric retry header denotes: a non-empty digit string whose value
/// fits the range, and nothing else.
pub open spec fn spec_parse_u64(s: Seq<char>) -> Option<u64> {
    if s.len() > 0 && spec_all_digits(s) && spec_digits_value(s) <= u64::MAX {
        Some(spec_digits_value(s) as u64)
    } else {
        None
    }
}

proof fn lemma_digits_value_nonneg(s: Seq<char>)
    requires
        spec_all_digits(s),
    ensures
        spec_digits_value(s) >= 0,
    decreases s.len(),
{
    if s.len() > 0 {
        assert(spec_all_digits(s.drop_last()));
        lemma_digits_value_nonneg(s.drop_last());
    }
}

proof fn lemma_digits_value_prefix(s: Seq<char>, k: int)
    requires
        spec_all_digits(s),
        0 <= k <= s.len(),
    ensures
        spec_digits_value(s.take(k)) <= spec_digits_value(s),
    decreases s.len() - k,
{
    if k < s.len() {
        assert(s.take(k + 1).drop_last() =~= s.take(k));
        assert(spec_all_digits(s.take(k)));
        lemma_digits_value_nonneg(s.take(k));
        assert(spec_digits_value(s.take(k + 1)) == spec_digits_value(s.take(k)) * 10 + (s[k]
            as u32 - 48));
        lemma_digits_value_prefix(s, k + 1);
    } else {
        assert(s.take(k) =~= s);
    }
}

/// Reads a numeric retry header. Exactly the non-empty all-digit strings
/// whose value fits 64 bits parse; anything else is "no usable duration".
pub fn parse_u64_digits(s: &str) -> (r: Option<u64>)
    ensures
        r == spec_parse_u64(s@),
{
    let len: usize = s.unicode_len();
    if len == 0 {
        return None;
    }
    let mut acc: u64 = 0;
    let mut i: usize = 0;
    while i < len
        invariant
            0 < len == s@.len(),
            i <= len,
            spec_all_digits(s@.take(i as int)),
            acc == spec_digits_value(s@.take(i as int)),
        decreases len - i,
    {
        let c = s.get_char(i);
        let cu = c as u32;
        if cu < 48 || cu > 57 {
            proof {
                assert(!spec_is_digit(s@[i as int]));
                assert(!spec_all_digits(s@));
            }
            return None;
        }
        let d: u64 = (cu - 48) as u64;
        proof {
            assert(s@.take(i + 1).drop_last() =~= s@.take(i as int));
            assert(spec_digits_value(s@.take(i + 1)) == spec_digits_value(s@.take(i as int)) * 10
                + (s@[i as int] as u32 - 48));
        }
        if acc > (u64::MAX - d) / 10 {
            proof {
                assert(spec_all_digits(s@.take(i + 1)));
                assert(spec_digits_value(s@.take(i + 1)) > u64::MAX);
                if spec_all_digits(s@) {
                    lemma_digits_value_prefix(s@, i + 1);
                }
            }
            return None;
        }
        acc = acc * 10 + d;
        i = i + 1;
    }
    proof {
        assert(s@.take(len as int) =~= s@);
    }
    Some(acc)
}

/// The status classes the core distinguishes.
#[derive(Clone, Copy, Debug, PartialEq, Eq, Structural)]
pub enum StatusClass {
    /// The "too many requests" status, whatever its class.
    RateLimit,
    /// The "not modified" status: conditional caching confirmed no change.
    NotModified,
    /// Fresh content is expected in the body.
    Fresh,
    /// Any other client-error status.
    ClientError,
    /// Any server-error status.
    ServerError,
}

pub open spec fn spec_status_class(status: u16) -> StatusClass {
    if status == 429 {
        StatusClass::RateLimit
    } else if status == 304 {
        StatusClass::NotModified
    } else if 400 <= status < 500 {
        StatusClass::ClientError
    } else if 500 <= status < 600 {
        StatusClass::ServerError
    } else {
        StatusClass::Fresh
    }
}

pub fn classify_status(status: u16) -> (r: StatusClass)
    ensures
        r == spec_status_class(status),
{
    if status == 429 {
        StatusClass::RateLimit
    } else if status == 304 {
        StatusClass::NotModified
    } else if 400 <= status && status < 500 {
        StatusClass::ClientError
    } else if 500 <= status && status < 600 {
        StatusClass::ServerError
    } else {
        StatusClass::Fresh
    }
}

/// What the transport handed back, reduced to plain values: the status, the
/// three response headers the core reads, and the body when one was read.
#[derive(Debug)]
pub struct RawResponse {
    pub status: u16,
    pub etag: Option<String>,
    pub last_modified: Option<String>,
    pub retry_after: Option<String>,
    pub body: Option<String>,
}

/// The validators a response leaves behind.
pub open spec fn spec_extracted_headers(r: RawResponse) -> CacheHeaders {
    CacheHeaders {
        etag: r.etag,
        last_modified: match r.last_modified {
            Some(s) => rfc2822_seconds_of(s@),
            None => None,
        },
    }
}

/// The retry duration a rate-limit response names, when it names one.
pub open spec fn spec_retry_after(ra: Option<String>) -> Option<u64> {
    match ra {
        Some(s) => spec_parse_u64(s@),
        None => None,
    }
}

/// One fetch attempt's result, reduced to what scheduling needs.
#[derive(Debug)]
pub enum FetchOutcome {
    /// The remote asked for a pause, with the parsed retry duration if it
    /// named a usable one.
    RateLimited { retry_after: Option<u64> },
    /// Conditional caching confirmed no change; no fingerprint was computed.
    Unmodified { headers: CacheHeaders },
    /// Fresh content, reduced to a fingerprint.
    Fetched { headers: CacheHeaders, fingerprint: u64 },
    /// The attempt failed; the source waits a regular interval.
    Failed { headers: CacheHeaders, error: FetchError },
}

/// A source's standing order: the instant it becomes eligible again, and the
/// validators to revalidate with.
#[derive(Debug)]
pub struct FetchPlan {
    pub time: u64,
    pub headers: CacheHeaders,
}

impl FetchPlan {
    /// Whether the planned instant has been reached.
    pub fn is_elapsed(&self, now: u64) -> (r: bool)
        ensures
            r == (now >= self.time),
    {
        now >= self.time
    }
}

/// What the previous attempt came to, as the planner consumes it.
#[derive(Debug)]
pub enum FetchPlanInput {
    /// Rate limited: pause this source, carrying its validators through
    /// unchanged.
    Retry { retry_after: Option<u64>, headers: CacheHeaders },
    /// Completed (success, not-modified and application error alike): the
    /// regular cadence, with the validators the response just left.
    WithCache { headers: CacheHeaders },
}

impl FetchPlanInput {
    pub fn into_cache_headers(self) -> (r: CacheHeaders)
        ensures
            r == match self {
                FetchPlanInput::Retry { headers, .. } => headers,
                FetchPlanInput::WithCache { headers } => headers,
            },
    {
        match self {
            FetchPlanInput::Retry { headers, .. } => headers,
            FetchPlanInput::WithCache { headers } => headers,
        }
    }
}

/// The instant a rate-limited source becomes eligible again: now, plus the
/// server-named pause or the default backoff, plus the safety margin.
pub open spec fn spec_retry_time(now: u64, retry_after: Option<u64>) -> u64 {
    spec_sat_add(
        spec_sat_add(
            now,
            match retry_after {
                Some(secs) => secs,
                None => DEFAULT_BACKOFF_SECS,
            },
        ),
        BACKOFF_MARGIN_SECS,
    )
}

/// The plan following one attempt: a rate limit imposes a source-local
/// pause; everything else, including the first contact, waits one base
/// interval from now.
pub open spec fn spec_next_fetch(
    base_interval: u64,
    last_result: Option<FetchPlanInput>,
    now: u64,
) -> FetchPlan {
    match last_result {
        Some(FetchPlanInput::Retry { retry_after, headers }) => FetchPlan {
            time: spec_retry_time(now, retry_after),
            headers,
        },
        Some(FetchPlanInput::WithCache { headers }) => FetchPlan {
            time: spec_sat_add(now, base_interval),
            headers,
        },
        None => FetchPlan {
            time: spec_sat_add(now, base_interval),
            headers: CacheHeaders::spec_empty(),
        },
    }
}

/// Plans the next fetch, on first contact or right after an attempt.
pub fn next_fetch(base_interval: u64, last_result: Option<FetchPlanInput>, now: u64) -> (r:
    FetchPlan)
    ensures
        r == spec_next_fetch(base_interval, last_result, now),
{
    match last_result {
        Some(FetchPlanInput::Retry { retry_after, headers }) => {
            let pause = match retry_after {
                Some(secs) => secs,
                None => DEFAULT_BACKOFF_SECS,
            };
            FetchPlan { time: sat_add(sat_add(now, pause), BACKOFF_MARGIN_SECS), headers }
        },
        Some(FetchPlanInput::WithCache { headers }) => FetchPlan {
            time: sat_add(now, base_interval),
            headers,
        },
        None => FetchPlan {
            time: sat_add(now, base_interval),
            headers: CacheHeaders { etag: None, last_modified: None },
        },
    }
}

} // verus!
