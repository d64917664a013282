//! Date texts at the caching boundary. A last-modified header is parsed as
//! an RFC 2822 date and rendered back in that convention; a registry tag's
//! update instant arrives as an RFC 3339 timestamp. The calendar arithmetic
//! itself is the `time` crate's; this crate only carries unix second counts.

use vstd::prelude::*;

verus! {

/// Unix-second reading of an RFC 2822 date text; absent where the text does
/// not parse as such a date.
pub uninterp spec fn rfc2822_seconds_of(s: Seq<char>) -> Option<i64>;

/// RFC 2822 rendering of a unix second count; absent where the instant lies
/// outside the representable calendar range.
pub uninterp spec fn rfc2822_text_of(t: i64) -> Option<Seq<char>>;

/// Unix-second reading of an RFC 3339 timestamp text; absent where the text
/// does not parse as such a timestamp.
pub uninterp spec fn rfc3339_seconds_of(s: Seq<char>) -> Option<i64>;

/// Relies on `time::OffsetDateTime::parse` with the RFC 2822 description:
/// the outcome depends on the text alone. The parsed instant is converted to
/// unix seconds with `unix_timestamp`.
#[verifier::external_body]
pub(crate) fn parse_rfc2822(s: &str) -> (r: Option<i64>)
    ensures
        r == rfc2822_seconds_of(s@),
{
    match time::OffsetDateTime::parse(s, &time::format_description::well_known::Rfc2822) {
        Ok(t) => Some(t.unix_timestamp()),
        Err(_) => None,
    }
}

/// Relies on `time::OffsetDateTime::format` with the RFC 2822 description:
/// the rendering depends on the instant alone. The unix second count is
/// converted to the crate's instant with `from_unix_timestamp`.
#[verifier::external_body]
pub(crate) fn format_rfc2822(t: i64) -> (r: Option<String>)
    ensures
        r matches Some(s) ==> rfc2822_text_of(t) == Some(s@),
        r is None ==> rfc2822_text_of(t) is None,
{
    match time::OffsetDateTime::from_unix_timestamp(t) {
        Ok(d) => d.format(&time::format_description::well_known::Rfc2822).ok(),
        Err(_) => None,
    }
}

/// Relies on `time::OffsetDateTime::parse` with the RFC 3339 description:
/// the outcome depends on the text alone. The parsed instant is converted to
/// unix seconds with `unix_timestamp`.
#[verifier::external_body]
pub(crate) fn parse_rfc3339(s: &str) -> (r: Option<i64>)
    ensures
        r == rfc3339_seconds_of(s@),
{
    match time::OffsetDateTime::parse(s, &time::format_description::well_known::Rfc3339) {
        Ok(t) => Some(t.unix_timestamp()),
        Err(_) => None,
    }
}

} // verus!
