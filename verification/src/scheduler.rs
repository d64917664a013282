//! The scheduler: per-source plans and fingerprints, and the decision a
//! fetch outcome turns into. The embedding process drives it: it asks
//! whether a source is due, performs the one fetch itself, and hands the
//! outcome back; everything the outcome means is decided here.

use crate::cache::{CacheHeaders, ConditionalHeader};
use crate::error::FetchError;
use crate::fetcher::{spec_next_fetch, next_fetch, FetchOutcome, FetchPlan, FetchPlanInput};
use crate::store::{ChangeDecision, FingerprintStore};
use vstd::prelude::*;

verus! {

/// Per-source scheduling state for a fixed, ordered list of sources,
/// addressed by their configured index.
pub struct FeedFetcher {
    base_interval: u64,
    fetch_plans: Vec<Option<FetchPlan>>,
    cache: FingerprintStore,
}

impl FeedFetcher {
    /// The uniform cadence, in seconds, a source waits after an ordinary
    /// attempt.
    pub closed spec fn spec_base_interval(&self) -> u64 {
        self.base_interval
    }

    /// Each source's standing order; absent before the first attempt.
    pub closed spec fn plans(&self) -> Seq<Option<FetchPlan>> {
        self.fetch_plans@
    }

    /// Each source's last-seen fingerprint; absent until one was computed.
    pub closed spec fn fingerprints(&self) -> Seq<Option<u64>> {
        self.cache@
    }

    pub open spec fn wf(&self) -> bool {
        self.plans().len() == self.fingerprints().len()
    }

    /// A source with no plan yet is due at once; otherwise its own planned
    /// instant decides, whatever the global cadence says.
    pub open spec fn spec_due(plan: Option<FetchPlan>, now: u64) -> bool {
        match plan {
            None => true,
            Some(p) => now >= p.time,
        }
    }

    /// The validators the previous plan carried; empty before first contact.
    pub open spec fn spec_prior_headers(plan: Option<FetchPlan>) -> CacheHeaders {
        match plan {
            None => CacheHeaders::spec_empty(),
            Some(p) => p.headers,
        }
    }

    /// How an outcome feeds the planner: a rate limit keeps the prior
    /// validators and imposes a pause; every completed attempt, error
    /// included, takes the regular cadence with the validators the response
    /// just left.
    pub open spec fn spec_plan_input(outcome: FetchOutcome, prior: CacheHeaders) -> FetchPlanInput {
        match outcome {
            FetchOutcome::RateLimited { retry_after } => FetchPlanInput::Retry {
                retry_after,
                headers: prior,
            },
            FetchOutcome::Unmodified { headers } => FetchPlanInput::WithCache { headers },
            FetchOutcome::Fetched { headers, .. } => FetchPlanInput::WithCache { headers },
            FetchOutcome::Failed { headers, .. } => FetchPlanInput::WithCache { headers },
        }
    }

    /// A scheduler for `n_sources` sources, none contacted yet.
    pub fn new(interval: u64, n_sources: usize) -> (r: FeedFetcher)
        ensures
            r.wf(),
            r.spec_base_interval() == interval,
            r.plans().len() == n_sources,
            forall|i: int| 0 <= i < n_sources ==> r.plans()[i] is None,
            forall|i: int| 0 <= i < n_sources ==> r.fingerprints()[i] is None,
    {
        let mut fetch_plans: Vec<Option<FetchPlan>> = Vec::new();
        let mut k: usize = 0;
        while k < n_sources
            invariant
                k <= n_sources,
                fetch_plans@.len() == k,
                forall|i: int| 0 <= i < k ==> fetch_plans@[i] is None,
            decreases n_sources - k,
        {
            fetch_plans.push(None);
            k = k + 1;
        }
        FeedFetcher { base_interval: interval, fetch_plans, cache: FingerprintStore::new(n_sources) }
    }

    /// Whether a source is due for a fetch at `now`. A tick before the
    /// planned instant must skip the source without any network call.
    pub fn should_update(&self, source: usize, now: u64) -> (r: bool)
        requires
            source < self.plans().len(),
        ensures
            r == Self::spec_due(self.plans()[source as int], now),
    {
        match &self.fetch_plans[source] {
            None => true,
            Some(plan) => plan.is_elapsed(now),
        }
    }

    /// The conditional header the next request for this source carries,
    /// from the validators its current plan stores.
    pub fn current_conditional_header(&self, source: usize) -> (r: ConditionalHeader)
        requires
            source < self.plans().len(),
        ensures
            Self::spec_prior_headers(self.plans()[source as int]).spec_header_choice().0 matches
                Some(tag) ==> r matches ConditionalHeader::IfNoneMatch(t) && t@ == tag,
            Self::spec_prior_headers(self.plans()[source as int]).spec_header_choice().1 matches
                Some(txt) ==> r matches ConditionalHeader::IfModifiedSince(s) && s@ == txt,
            Self::spec_prior_headers(self.plans()[source as int]).spec_header_choice() == (
                None::<Seq<char>>,
                None::<Seq<char>>,
            ) ==> r is Unconditional,
    {
        match &self.fetch_plans[source] {
            None => ConditionalHeader::Unconditional,
            Some(p) => p.headers.conditional_header(),
        }
    }

    /// Accounts one due source's fetch outcome: installs the next plan —
    /// there is no outcome that leaves a source without an updated plan —
    /// feeds a fresh fingerprint to the store, and answers whether to
    /// notify: exactly on a `Changed` decision. A failed attempt surfaces
    /// its error after the plan has still been advanced by a full base
    /// interval.
    pub fn check_feed_updated(&mut self, source: usize, outcome: FetchOutcome, now: u64) -> (r:
        Result<bool, FetchError>)
        requires
            old(self).wf(),
            source < old(self).plans().len(),
            Self::spec_due(old(self).plans()[source as int], now),
        ensures
            final(self).wf(),
            final(self).spec_base_interval() == old(self).spec_base_interval(),
            final(self).plans().len() == old(self).plans().len(),
            final(self).plans()[source as int] == Some(
                spec_next_fetch(
                    old(self).spec_base_interval(),
                    Some(
                        Self::spec_plan_input(
                            outcome,
                            Self::spec_prior_headers(old(self).plans()[source as int]),
                        ),
                    ),
                    now,
                ),
            ),
            forall|i: int|
                0 <= i < final(self).plans().len() && i != source ==> final(self).plans()[i]
                    == old(self).plans()[i],
            old(self).plans()[source as int] matches Some(p) ==> final(self).plans()[
                source as int
            ]->0.time >= p.time,
            match outcome {
                FetchOutcome::Fetched { fingerprint, .. } => {
                    &&& final(self).fingerprints() == old(self).fingerprints().update(
                        source as int,
                        FingerprintStore::spec_observe(
                            old(self).fingerprints()[source as int],
                            Some(fingerprint),
                        ).0,
                    )
                    &&& r == Ok::<bool, FetchError>(
                        FingerprintStore::spec_observe(
                            old(self).fingerprints()[source as int],
                            Some(fingerprint),
                        ).1 is Changed,
                    )
                },
                FetchOutcome::RateLimited { .. } => final(self).fingerprints() == old(
                    self,
                ).fingerprints() && r == Ok::<bool, FetchError>(false),
                FetchOutcome::Unmodified { .. } => final(self).fingerprints() == old(
                    self,
                ).fingerprints() && r == Ok::<bool, FetchError>(false),
                FetchOutcome::Failed { error, .. } => final(self).fingerprints() == old(
                    self,
                ).fingerprints() && r == Err::<bool, FetchError>(error),
            },
    {
        let ghost pre = *self;
        let prior_plan: Option<FetchPlan> = self.fetch_plans.remove(source);
        let prior_headers: CacheHeaders = match prior_plan {
            None => CacheHeaders { etag: None, last_modified: None },
            Some(p) => p.headers,
        };
        match outcome {
            FetchOutcome::RateLimited { retry_after } => {
                let plan = next_fetch(
                    self.base_interval,
                    Some(FetchPlanInput::Retry { retry_after, headers: prior_headers }),
                    now,
                );
                self.fetch_plans.insert(source, Some(plan));
                Ok(false)
            },
            FetchOutcome::Unmodified { headers } => {
                let plan = next_fetch(
                    self.base_interval,
                    Some(FetchPlanInput::WithCache { headers }),
                    now,
                );
                self.fetch_plans.insert(source, Some(plan));
                Ok(false)
            },
            FetchOutcome::Fetched { headers, fingerprint } => {
                let plan = next_fetch(
                    self.base_interval,
                    Some(FetchPlanInput::WithCache { headers }),
                    now,
                );
                self.fetch_plans.insert(source, Some(plan));
                let d = self.cache.observe(source, Some(fingerprint));
                proof {
                    assert(self.cache@ =~= pre.fingerprints().update(
                        source as int,
                        FingerprintStore::spec_observe(
                            pre.fingerprints()[source as int],
                            Some(fingerprint),
                        ).0,
                    ));
                }
                Ok(d == ChangeDecision::Changed)
            },
            FetchOutcome::Failed { headers, error } => {
                let plan = next_fetch(
                    self.base_interval,
                    Some(FetchPlanInput::WithCache { headers }),
                    now,
                );
                self.fetch_plans.insert(source, Some(plan));
                Err(error)
            },
        }
    }
}

} // verus!
