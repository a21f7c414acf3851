//! Cache decision engine and storage contract for an HTTP response cache.
//!
//! The engine is written as a set of decision steps over plain values: the
//! caller performs the network fetch, the storage access and the freshness
//! evaluation, and hands the outcomes back to the next step.
mod assoc;
pub mod laws;
pub mod engine;
pub mod key;
pub mod response;
pub mod store;

pub use engine::{force_no_cache, Cache, CacheError, CacheMode, Decision, DecisionKind, Plan, Revalidated, NOT_MODIFIED};
pub use key::{cache_key, is_method_get_head, req_key};
pub use response::{merge_headers, set_header, HttpVersion, StoredResponse};
pub use store::{CacheEntry, MemoryStore};
