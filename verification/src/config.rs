//! The one configuration value the core itself carries around: a header
//! value destined for a notification hook. Reading and validating the
//! on-disk configuration belongs to the embedding process.

use vstd::prelude::*;

verus! {

/// One header value for a notification hook, already resolved by the host
/// (a literal, or the content of a credentials file).
#[derive(Debug)]
pub struct HeaderVal(pub String);

} // verus!
