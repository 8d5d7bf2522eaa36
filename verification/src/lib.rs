//! A read-through cache for remote JSON lookups: a durable URL -> body table
//! and the fetch logic that consults it before touching the network.

pub mod fetch;
pub mod json;
pub mod laws;
pub mod store;

pub use fetch::{complete_fetch, consult_cache, resolve_cached, CacheOutcome, FetchError, Fetched};
pub use store::{CacheStore, StoreError};
