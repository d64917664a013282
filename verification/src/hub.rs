//! The registry-tag reader: address syntax, and a tag listing reduced to a
//! fingerprint of every tag's identifier and update instant.

use crate::cache::CacheHeaders;
use crate::dates::{parse_rfc2822, parse_rfc3339, rfc3339_seconds_of};
use crate::error::{FetchError, HubError};
use crate::fetcher::{
    spec_extracted_headers, spec_retry_after, spec_status_class, classify_status, parse_u64_digits,
    FetchOutcome, RawResponse, StatusClass,
};
use crate::hash::{spec_fnv_step, spec_ts_bits, fnv_step, ts_bits, FNV_OFFSET};
use vstd::prelude::*;

verus! {

/// The reader variant an address selects, chosen once at configuration time.
#[derive(Debug)]
pub enum SourceKind {
    /// A syndication feed at the address itself.
    Feed,
    /// A registry coordinate: namespace and repository.
    Registry { user: String, repo: String },
    /// A registry-style address that does not split into exactly two
    /// non-empty slash-separated segments.
    RegistryInvalid,
}

/// The scheme prefix that selects the registry-tag reader.
pub open spec fn spec_hub_prefix() -> Seq<char> {
    "docker-hub://"@
}

pub open spec fn spec_is_hub_addr(s: Seq<char>) -> bool {
    s.len() >= spec_hub_prefix().len() && s.take(spec_hub_prefix().len() as int)
        == spec_hub_prefix()
}

/// The coordinate part of a registry address: what follows the prefix.
pub open spec fn spec_hub_rest(s: Seq<char>) -> Seq<char> {
    s.skip(spec_hub_prefix().len() as int)
}

pub open spec fn spec_char_count(s: Seq<char>, c: char) -> int
    decreases s.len(),
{
    if s.len() == 0 {
        0
    } else {
        spec_char_count(s.drop_last(), c) + if s.last() == c {
            1int
        } else {
            0int
        }
    }
}

/// A valid coordinate: exactly one separating slash, with a non-empty
/// segment on each side.
pub open spec fn spec_valid_coord(rest: Seq<char>) -> bool {
    rest.len() > 0 && spec_char_count(rest, '/') == 1 && rest.first() != '/' && rest.last() != '/'
}

/// Chooses the reader variant by address syntax: the registry prefix selects
/// the tag reader, and its coordinate must split into exactly two non-empty
/// segments; any other address is read as a syndication feed.
pub fn classify_source(addr: &str) -> (r: SourceKind)
    ensures
        !spec_is_hub_addr(addr@) ==> r is Feed,
        spec_is_hub_addr(addr@) && !spec_valid_coord(spec_hub_rest(addr@)) ==> r
            is RegistryInvalid,
        spec_is_hub_addr(addr@) && spec_valid_coord(spec_hub_rest(addr@)) ==> (r matches
            SourceKind::Registry { user, repo } && user@.len() > 0 && repo@.len() > 0 && user@
            + seq!['/'] + repo@ == spec_hub_rest(addr@)),
{
    let prefix = "docker-hub://";
    proof {
        reveal_strlit("docker-hub://");
    }
    let alen = addr.unicode_len();
    if alen < 13 {
        return SourceKind::Feed;
    }
    let mut i: usize = 0;
    while i < 13
        invariant
            i <= 13,
            alen == addr@.len() >= 13,
            prefix@ == spec_hub_prefix(),
            prefix@.len() == 13,
            forall|j: int| 0 <= j < i ==> addr@[j] == spec_hub_prefix()[j],
        decreases 13 - i,
    {
        if addr.get_char(i) != prefix.get_char(i) {
            proof {
                assert(addr@.take(13)[i as int] == addr@[i as int]);
                assert(addr@.take(13) != spec_hub_prefix());
            }
            return SourceKind::Feed;
        }
        i = i + 1;
    }
    proof {
        assert(addr@.take(13) =~= spec_hub_prefix());
    }
    let rest = addr.substring_char(13, alen);
    proof {
        assert(rest@ =~= spec_hub_rest(addr@));
    }
    let rlen = rest.unicode_len();
    let mut slash_idx: usize = 0;
    let mut slash_count: usize = 0;
    let mut k: usize = 0;
    while k < rlen
        invariant
            k <= rlen == rest@.len(),
            slash_count <= k,
            slash_count as int == spec_char_count(rest@.take(k as int), '/'),
            slash_count > 0 ==> slash_idx < k && rest@[slash_idx as int] == '/',
            slash_count == 1 ==> forall|j: int|
                0 <= j < k && j != slash_idx ==> rest@[j] != '/',
            slash_count == 0 ==> forall|j: int| 0 <= j < k ==> rest@[j] != '/',
        decreases rlen - k,
    {
        let c = rest.get_char(k);
        proof {
            assert(rest@.take(k + 1).drop_last() =~= rest@.take(k as int));
        }
        if c == '/' {
            if slash_count == 0 {
                slash_idx = k;
            }
            slash_count = slash_count + 1;
        }
        k = k + 1;
    }
    proof {
        assert(rest@.take(rlen as int) =~= rest@);
    }
    if slash_count == 1 && slash_idx > 0 && slash_idx < rlen - 1 {
        let user = rest.substring_char(0, slash_idx).to_owned();
        let repo = rest.substring_char(slash_idx + 1, rlen).to_owned();
        proof {
            assert(user@ + seq!['/'] + repo@ =~= rest@);
        }
        SourceKind::Registry { user, repo }
    } else {
        proof {
            if slash_count == 1 {
                assert(rest@[slash_idx as int] == '/');
                if slash_idx == 0 {
                    assert(rest@.first() == '/');
                } else {
                    assert(rest@[rlen - 1] == '/');
                    assert(rest@.last() == '/');
                }
            }
        }
        SourceKind::RegistryInvalid
    }
}

/// One tag of a registry listing: its numeric identifier, and its update
/// instant as the RFC 3339 text the listing carried.
#[derive(Debug)]
pub struct HubTag {
    pub id: u64,
    pub last_updated: String,
}

/// Folding a tag listing into a running hash, in listing order: each tag's
/// identifier, then its parsed update instant. Absent where some update
/// instant does not parse.
pub open spec fn spec_tags_fold(h: u64, tags: Seq<HubTag>) -> Option<u64>
    decreases tags.len(),
{
    if tags.len() == 0 {
        Some(h)
    } else {
        match rfc3339_seconds_of(tags.first().last_updated@) {
            None => None,
            Some(t) => spec_tags_fold(
                spec_fnv_step(spec_fnv_step(h, tags.first().id), spec_ts_bits(t)),
                tags.drop_first(),
            ),
        }
    }
}

/// The fingerprint of a whole tag listing.
pub open spec fn spec_hub_key(tags: Seq<HubTag>) -> Option<u64> {
    spec_tags_fold(FNV_OFFSET, tags)
}

/// Fingerprints a tag listing, in the order the remote returned it.
pub fn hub_key(tags: &Vec<HubTag>) -> (r: Option<u64>)
    ensures
        r == spec_hub_key(tags@),
{
    let mut h: u64 = FNV_OFFSET;
    let mut i: usize = 0;
    proof {
        assert(tags@.skip(0) =~= tags@);
    }
    while i < tags.len()
        invariant
            i <= tags@.len(),
            spec_tags_fold(FNV_OFFSET, tags@) == spec_tags_fold(h, tags@.skip(i as int)),
        decreases tags@.len() - i,
    {
        let tag = &tags[i];
        proof {
            assert(tags@.skip(i as int).first() == tags@[i as int]);
            assert(tags@.skip(i as int).drop_first() =~= tags@.skip(i + 1));
        }
        match parse_rfc3339(tag.last_updated.as_str()) {
            None => {
                return None;
            },
            Some(t) => {
                h = fnv_step(fnv_step(h, tag.id), ts_bits(t));
            },
        }
        i = i + 1;
    }
    Some(h)
}

/// What a registry fetch comes to. `resp` absent means the transport itself
/// failed; `tags` is the decoded listing of a fresh body, absent where the
/// body was missing or did not decode. An empty listing contributes nothing:
/// it counts as unmodified and the prior fingerprint stands.
pub open spec fn spec_hub_outcome(resp: Option<RawResponse>, tags: Option<Vec<HubTag>>) -> FetchOutcome {
    match resp {
        None => FetchOutcome::Failed {
            headers: CacheHeaders::spec_empty(),
            error: FetchError::Hub(HubError::Network),
        },
        Some(r) => {
            let h = spec_extracted_headers(r);
            match spec_status_class(r.status) {
                StatusClass::RateLimit => FetchOutcome::RateLimited {
                    retry_after: spec_retry_after(r.retry_after),
                },
                StatusClass::NotModified => FetchOutcome::Unmodified { headers: h },
                StatusClass::ClientError => FetchOutcome::Failed {
                    headers: h,
                    error: FetchError::Hub(HubError::ClientError(r.status)),
                },
                StatusClass::ServerError => FetchOutcome::Failed {
                    headers: h,
                    error: FetchError::Hub(HubError::ServerError(r.status)),
                },
                StatusClass::Fresh => match r.body {
                    None => FetchOutcome::Failed {
                        headers: h,
                        error: FetchError::Hub(HubError::Network),
                    },
                    Some(_) => match tags {
                        None => FetchOutcome::Failed {
                            headers: h,
                            error: FetchError::Hub(HubError::Parse),
                        },
                        Some(ts) => if ts@.len() == 0 {
                            FetchOutcome::Unmodified { headers: h }
                        } else {
                            match spec_hub_key(ts@) {
                                Some(k) => FetchOutcome::Fetched { headers: h, fingerprint: k },
                                None => FetchOutcome::Failed {
                                    headers: h,
                                    error: FetchError::Hub(HubError::Parse),
                                },
                            }
                        },
                    },
                },
            }
        },
    }
}

/// Reduces a registry fetch's raw result and decoded tag listing to an
/// outcome.
pub fn hub_outcome(resp: Option<RawResponse>, tags: Option<Vec<HubTag>>) -> (r: FetchOutcome)
    ensures
        r == spec_hub_outcome(resp, tags),
{
    let raw = match resp {
        None => {
            return FetchOutcome::Failed {
                headers: CacheHeaders { etag: None, last_modified: None },
                error: FetchError::Hub(HubError::Network),
            };
        },
        Some(raw) => raw,
    };
    let RawResponse { status, etag, last_modified, retry_after, body } = raw;
    let parsed_lm: Option<i64> = match &last_modified {
        Some(s) => parse_rfc2822(s.as_str()),
        None => None,
    };
    let headers = CacheHeaders { etag, last_modified: parsed_lm };
    match classify_status(status) {
        StatusClass::RateLimit => {
            let after: Option<u64> = match &retry_after {
                Some(s) => parse_u64_digits(s.as_str()),
                None => None,
            };
            FetchOutcome::RateLimited { retry_after: after }
        },
        StatusClass::NotModified => FetchOutcome::Unmodified { headers },
        StatusClass::ClientError => FetchOutcome::Failed {
            headers,
            error: FetchError::Hub(HubError::ClientError(status)),
        },
        StatusClass::ServerError => FetchOutcome::Failed {
            headers,
            error: FetchError::Hub(HubError::ServerError(status)),
        },
        StatusClass::Fresh => match body {
            None => FetchOutcome::Failed { headers, error: FetchError::Hub(HubError::Network) },
            Some(_) => match tags {
                None => FetchOutcome::Failed {
                    headers,
                    error: FetchError::Hub(HubError::Parse),
                },
                Some(ts) => if ts.len() == 0 {
                    FetchOutcome::Unmodified { headers }
                } else {
                    match hub_key(&ts) {
                        Some(k) => FetchOutcome::Fetched { headers, fingerprint: k },
                        None => FetchOutcome::Failed {
                            headers,
                            error: FetchError::Hub(HubError::Parse),
                        },
                    }
                },
            },
        },
    }
}

/// The outcome of a registry source whose address never parsed: no network
/// call is made, and the attempt fails with the format error.
pub fn invalid_address_outcome() -> (r: FetchOutcome)
    ensures
        r == (FetchOutcome::Failed {
            headers: CacheHeaders::spec_empty(),
            error: FetchError::Hub(HubError::InvalidFormat),
        }),
{
    FetchOutcome::Failed {
        headers: CacheHeaders { etag: None, last_modified: None },
        error: FetchError::Hub(HubError::InvalidFormat),
    }
}

} // verus!
