//! Fetch scheduling and change detection for a set of watched remote
//! sources: syndication feeds and container-registry tag listings.
//!
//! The crate decides when each source is polled again, negotiates
//! conditional-caching headers, reduces a response to a fingerprint of its
//! newest content, and decides whether that fingerprint is a genuine change.
//! All network traffic, clock reads and configuration loading stay with the
//! embedding process, which hands plain values in and out.

pub mod cache;
pub mod config;
pub mod dates;
pub mod error;
pub mod feed;
pub mod fetcher;
pub mod hash;
pub mod hub;
pub mod laws;
pub mod scheduler;
pub mod store;
