//! Conditional-caching negotiation: what a prior response's validators were,
//! and which single conditional header the next request carries.

use crate::dates::{format_rfc2822, parse_rfc2822, rfc2822_seconds_of, rfc2822_text_of};
use vstd::prelude::*;

verus! {

/// The validators a prior response left behind: an entity tag kept verbatim,
/// and a last-modified instant in unix seconds. Both are optional; both are
/// replaced wholesale after every successful response.
#[derive(Debug)]
pub struct CacheHeaders {
    pub etag: Option<String>,
    pub last_modified: Option<i64>,
}

/// The at most one conditional header an outgoing request carries.
#[derive(Debug)]
pub enum ConditionalHeader {
    /// No validators: fetch unconditionally.
    Unconditional,
    /// An "if-none-match" header carrying the stored entity tag verbatim.
    IfNoneMatch(String),
    /// An "if-modified-since" header carrying the stored instant, rendered
    /// per the RFC 2822 date convention.
    IfModifiedSince(String),
}

impl CacheHeaders {
    /// Validators of a source never contacted: both absent.
    pub open spec fn spec_empty() -> CacheHeaders {
        CacheHeaders { etag: None, last_modified: None }
    }

    /// Reads a response's caching headers. The entity tag is kept verbatim;
    /// the last-modified text is parsed best effort, and a malformed date
    /// degrades to "absent" rather than failing the fetch.
    pub fn from_parts(etag: Option<String>, last_modified: Option<&str>) -> (r: CacheHeaders)
        ensures
            r.etag == etag,
            r.last_modified == match last_modified {
                Some(s) => rfc2822_seconds_of(s@),
                None => None::<i64>,
            },
    {
        let parsed: Option<i64> = match last_modified {
            Some(s) => parse_rfc2822(s),
            None => None,
        };
        CacheHeaders { etag, last_modified: parsed }
    }

    /// The texts of the two possible conditional headers, abstractly: the
    /// entity tag verbatim when one is stored — in which case the
    /// last-modified instant is ignored entirely — else the rendered
    /// last-modified instant when one is stored and renders.
    pub open spec fn spec_header_choice(self) -> (Option<Seq<char>>, Option<Seq<char>>) {
        match self.etag {
            Some(tag) => (Some(tag@), None),
            None => match self.last_modified {
                Some(lm) => match rfc2822_text_of(lm) {
                    Some(txt) => (None, Some(txt)),
                    None => (None, None),
                },
                None => (None, None),
            },
        }
    }

    /// The conditional header for the next request. An entity tag takes
    /// precedence: when one is stored, the last-modified instant is ignored
    /// entirely. A last-modified instant that cannot be rendered degrades to
    /// an unconditional fetch.
    pub fn conditional_header(&self) -> (r: ConditionalHeader)
        ensures
            self.spec_header_choice().0 matches Some(tag) ==> r matches
                ConditionalHeader::IfNoneMatch(t) && t@ == tag,
            self.spec_header_choice().1 matches Some(txt) ==> r matches
                ConditionalHeader::IfModifiedSince(s) && s@ == txt,
            self.spec_header_choice() == (None::<Seq<char>>, None::<Seq<char>>) ==> r
                is Unconditional,
    {
        match &self.etag {
            Some(tag) => ConditionalHeader::IfNoneMatch(tag.clone()),
            None => match self.last_modified {
                Some(lm) => match format_rfc2822(lm) {
                    Some(s) => ConditionalHeader::IfModifiedSince(s),
                    None => ConditionalHeader::Unconditional,
                },
                None => ConditionalHeader::Unconditional,
            },
        }
    }
}

impl Default for CacheHeaders {
    /// Same validators as [`CacheHeaders::spec_empty`]: a source never
    /// contacted is fetched unconditionally.
    fn default() -> (r: CacheHeaders)
        ensures
            r == CacheHeaders::spec_empty(),
    {
        CacheHeaders { etag: None, last_modified: None }
    }
}

} // verus!
