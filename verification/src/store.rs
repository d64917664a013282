//! The per-source cache of the last-seen fingerprint, and the
//! changed-versus-unchanged decision.

use vstd::prelude::*;

verus! {

/// What one observation means for a source.
#[derive(Clone, Copy, Debug, PartialEq, Eq, Structural)]
pub enum ChangeDecision {
    /// No fingerprint was known yet; the new one is recorded, and the caller
    /// must not notify.
    FirstSeen,
    /// The fingerprint is the known one, or none was computed.
    Unchanged,
    /// The fingerprint replaces a different known one.
    Changed,
}

/// The last-seen fingerprint of each source, by source index. An absent
/// entry means "never successfully observed".
pub struct FingerprintStore {
    entries: Vec<Option<u64>>,
}

impl View for FingerprintStore {
    type V = Seq<Option<u64>>;

    closed spec fn view(&self) -> Seq<Option<u64>> {
        self.entries@
    }
}

impl FingerprintStore {
    /// What one observation does to an entry, and what it decides: nothing
    /// observed leaves everything alone; a first fingerprint is recorded
    /// silently; a repeated one changes nothing; a different one replaces
    /// the record and is the only case that counts as a change.
    pub open spec fn spec_observe(prior: Option<u64>, fp: Option<u64>) -> (Option<u64>, ChangeDecision) {
        match fp {
            None => (prior, ChangeDecision::Unchanged),
            Some(f) => match prior {
                None => (Some(f), ChangeDecision::FirstSeen),
                Some(p) => if p == f {
                    (Some(p), ChangeDecision::Unchanged)
                } else {
                    (Some(f), ChangeDecision::Changed)
                },
            },
        }
    }

    /// A store for `n` sources, none of them observed yet.
    pub fn new(n: usize) -> (r: FingerprintStore)
        ensures
            r@.len() == n,
            forall|i: int| 0 <= i < n ==> r@[i] is None,
    {
        let mut entries: Vec<Option<u64>> = Vec::new();
        let mut k: usize = 0;
        while k < n
            invariant
                k <= n,
                entries@.len() == k,
                forall|i: int| 0 <= i < k ==> entries@[i] is None,
            decreases n - k,
        {
            entries.push(None);
            k = k + 1;
        }
        FingerprintStore { entries }
    }

    /// Feeds one source's new fingerprint (or the lack of one) to the store.
    pub fn observe(&mut self, source: usize, fp: Option<u64>) -> (d: ChangeDecision)
        requires
            source < old(self)@.len(),
        ensures
            final(self)@.len() == old(self)@.len(),
            final(self)@[source as int] == Self::spec_observe(old(self)@[source as int], fp).0,
            d == Self::spec_observe(old(self)@[source as int], fp).1,
            forall|i: int|
                0 <= i < final(self)@.len() && i != source ==> final(self)@[i] == old(self)@[i],
    {
        let prior = self.entries.remove(source);
        let (entry, d) = match fp {
            None => (prior, ChangeDecision::Unchanged),
            Some(f) => match prior {
                None => (Some(f), ChangeDecision::FirstSeen),
                Some(p) => if p == f {
                    (Some(p), ChangeDecision::Unchanged)
                } else {
                    (Some(f), ChangeDecision::Changed)
                },
            },
        };
        self.entries.insert(source, entry);
        proof {
            assert(self.entries@ =~= old(self)@.update(
                source as int,
                Self::spec_observe(old(self)@[source as int], fp).0,
            ));
        }
        d
    }
}

} // verus!
