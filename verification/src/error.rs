//! The error taxonomy. Every per-source error is reported at the source
//! granularity and retried at the next regular tick; none is fatal.

use vstd::prelude::*;

verus! {

/// Why a feed body could not be reduced to a fingerprint.
#[derive(Clone, Copy, Debug, PartialEq, Eq, Structural)]
pub enum ParseFeedError {
    /// The body parses as neither feed dialect.
    Parse,
    /// The body parses but holds zero items.
    Empty,
    /// The newest item carries none of the three identity fields.
    MissingKey,
}

/// What went wrong while fetching a syndication feed.
#[derive(Clone, Copy, Debug, PartialEq, Eq, Structural)]
pub enum FetchFeedError {
    /// Transport-level failure before or while reading the response.
    Network,
    /// The response body was unusable.
    Parse(ParseFeedError),
    /// The remote answered with the given server-error status.
    ServerError(u16),
    /// The remote answered with the given client-error status.
    ClientError(u16),
}

/// What went wrong while fetching a registry tag listing.
#[derive(Clone, Copy, Debug, PartialEq, Eq, Structural)]
pub enum HubError {
    /// Transport-level failure before or while reading the response.
    Network,
    /// The tag listing did not parse, or a tag's update instant did not.
    Parse,
    /// The remote answered with the given server-error status.
    ServerError(u16),
    /// The remote answered with the given client-error status.
    ClientError(u16),
    /// The address does not split into exactly two non-empty segments.
    InvalidFormat,
}

/// A per-source fetch error, tagged by the reader variant that produced it.
#[derive(Clone, Copy, Debug, PartialEq, Eq, Structural)]
pub enum FetchError {
    Feed(FetchFeedError),
    Hub(HubError),
}

} // verus!
