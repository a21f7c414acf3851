//! Properties that hold across the engine's steps and the store's operations.
use vstd::prelude::*;

use crate::engine::{bypasses, decision_kind, fetches, CacheMode, DecisionKind};
use crate::key::{cacheable_method, key_of};
use crate::store::{EntryView, MemoryStore};

verus! {

/// A `GET` or `HEAD` request in mode `Default` with nothing stored goes to
/// storage, is fetched exactly once whatever the oracle says, and the entry
/// written for it afterwards is exactly what a later lookup returns.
pub proof fn lemma_default_miss_fetches_once(
    store: MemoryStore,
    method: Seq<char>,
    url: Seq<char>,
    fresh: bool,
    entry: EntryView,
)
    requires
        store.wf(),
        cacheable_method(method),
        !store@.contains_key(key_of(method, url)),
    ensures
        !bypasses(CacheMode::Default, method),
        decision_kind(CacheMode::Default, false, fresh) == DecisionKind::Fetch,
        fetches(decision_kind(CacheMode::Default, false, fresh)) == 1,
        store@.insert(key_of(method, url), entry).contains_key(key_of(method, url)),
        store@.insert(key_of(method, url), entry)[key_of(method, url)] == entry,
{
}

/// In mode `OnlyIfCached` a miss fails and fetches nothing.
pub proof fn lemma_only_if_cached_miss_fails(method: Seq<char>, fresh: bool)
    ensures
        decision_kind(CacheMode::OnlyIfCached, false, fresh) == DecisionKind::Fail,
        fetches(decision_kind(CacheMode::OnlyIfCached, false, fresh)) == 0,
{
}

/// In mode `NoStore` every request bypasses storage (no lookup and no write)
/// and goes to the network, so two requests in a row both do.
pub proof fn lemma_no_store_always_bypasses(first: Seq<char>, second: Seq<char>)
    ensures
        bypasses(CacheMode::NoStore, first),
        bypasses(CacheMode::NoStore, second),
{
}

/// In mode `ForceCache` a stored entry is served without a fetch, even when
/// the oracle calls it stale.
pub proof fn lemma_force_cache_serves_stale(fresh: bool)
    ensures
        decision_kind(CacheMode::ForceCache, true, fresh) == DecisionKind::Serve,
        fetches(decision_kind(CacheMode::ForceCache, true, fresh)) == 0,
{
}

/// Writing the same entry twice under one key leaves the same contents as
/// writing it once.
pub proof fn lemma_put_twice(contents: Map<Seq<char>, EntryView>, key: Seq<char>, entry: EntryView)
    ensures
        contents.insert(key, entry).insert(key, entry) == contents.insert(key, entry),
{
    assert(contents.insert(key, entry).insert(key, entry) =~= contents.insert(key, entry));
}

/// Deleting a key that holds no entry changes nothing.
pub proof fn lemma_delete_absent(contents: Map<Seq<char>, EntryView>, key: Seq<char>)
    requires
        !contents.contains_key(key),
    ensures
        contents.remove(key) == contents,
{
    assert(contents.remove(key) =~= contents);
}

} // verus!
