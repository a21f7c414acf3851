use vstd::prelude::*;

use crate::key::{cacheable_method, is_method_get_head};
use crate::assoc::{at_most_once, drop_key};
use crate::response::{
    header_map, headers_view, lowercase_name, lowercase_names, merge_headers, set_header,
    StoredResponse,
};
use crate::store::CacheEntry;

verus! {

/// How a cache instance treats the requests it handles.
#[derive(Clone, Copy, Debug, PartialEq, Eq, Structural)]
pub enum CacheMode {
    /// Normal HTTP caching: serve fresh entries, revalidate stale ones.
    Default,
    /// Bypass the cache entirely: no read and no write.
    NoStore,
    /// Always fetch, and still store the result.
    Reload,
    /// Always revalidate a stored entry before using it.
    NoCache,
    /// Serve a stored entry even when stale, without revalidation.
    ForceCache,
    /// Never use the network; fail where nothing is stored.
    OnlyIfCached,
    /// Serve a stored entry unconditionally, ignoring cache-control rules.
    IgnoreRules,
}

/// The ways a request through the cache can fail.
#[derive(Clone, Copy, Debug, PartialEq, Eq, Structural)]
pub enum CacheError {
    /// Only stored responses were allowed, and none was stored.
    CacheMiss,
    /// The request body could not be duplicated for a conditional request.
    RequestClone,
    /// The network fetch failed.
    Transport,
    /// The freshness policy could not be computed from the metadata.
    Policy,
    /// A fetched response could not be written to storage.
    StorageWrite,
}

/// What to do with a request before storage is consulted.
#[derive(Clone, Copy, Debug, PartialEq, Eq, Structural)]
pub enum Plan {
    /// Fetch and return the response verbatim; storage is not touched.
    Bypass,
    /// Look the request's entry up in storage, then call `decide`.
    Lookup,
}

/// The shape of a decision, without the values it carries.
#[derive(Clone, Copy, Debug, PartialEq, Eq, Structural)]
pub enum DecisionKind {
    Fail,
    Fetch,
    Serve,
    Revalidate,
}

/// What to do once the lookup is done.
#[derive(Debug)]
pub enum Decision {
    /// Give up with this error; nothing is fetched.
    Fail(CacheError),
    /// Fetch the request in full, then store the result if it is storable.
    Fetch,
    /// Answer with this stored response; nothing is fetched.
    Serve(StoredResponse),
    /// Fetch conditionally, with the validators of this entry's policy, then
    /// call `on_revalidated` with the stored response and the reply.
    Revalidate(CacheEntry),
}

/// The outcome of a conditional fetch.
#[derive(Debug)]
pub enum Revalidated {
    /// The origin reported "not modified": the stored response with the
    /// reply's headers applied. Store it with the merged policy and return it.
    Unchanged(StoredResponse),
    /// The origin sent a new response: store it as on a miss and return it.
    Replaced(StoredResponse),
}

impl Decision {
    pub open spec fn kind(&self) -> DecisionKind {
        match self {
            Decision::Fail(_) => DecisionKind::Fail,
            Decision::Fetch => DecisionKind::Fetch,
            Decision::Serve(_) => DecisionKind::Serve,
            Decision::Revalidate(_) => DecisionKind::Revalidate,
        }
    }
}

/// The status an origin answers a successful revalidation with.
pub const NOT_MODIFIED: u16 = 304;

/// Whether a request skips the cache altogether.
pub open spec fn bypasses(mode: CacheMode, method: Seq<char>) -> bool {
    !cacheable_method(method) || mode == CacheMode::NoStore
}

/// The decision taken after a lookup: `hit` says whether an entry was found,
/// `fresh` what the policy oracle said of it.
pub open spec fn decision_kind(mode: CacheMode, hit: bool, fresh: bool) -> DecisionKind {
    if !hit {
        if mode == CacheMode::OnlyIfCached {
            DecisionKind::Fail
        } else {
            DecisionKind::Fetch
        }
    } else {
        match mode {
            CacheMode::ForceCache | CacheMode::OnlyIfCached | CacheMode::IgnoreRules => {
                DecisionKind::Serve
            },
            CacheMode::Reload | CacheMode::NoStore => DecisionKind::Fetch,
            CacheMode::NoCache => DecisionKind::Revalidate,
            CacheMode::Default => if fresh {
                DecisionKind::Serve
            } else {
                DecisionKind::Revalidate
            },
        }
    }
}

/// The number of network fetches a decision leads to.
pub open spec fn fetches(k: DecisionKind) -> nat {
    match k {
        DecisionKind::Fail | DecisionKind::Serve => 0,
        DecisionKind::Fetch | DecisionKind::Revalidate => 1,
    }
}

/// The request headers with a `cache-control: no-cache` directive set.
pub fn force_no_cache(headers: &Vec<(String, String)>) -> (r: Vec<(String, String)>)
    ensures
        header_map(headers_view(r@)) == header_map(
            headers_view(headers@),
        ).insert("cache-control"@, "no-cache"@),
        headers_view(r@) == drop_key(headers_view(headers@), "cache-control"@).push(
            ("cache-control"@, "no-cache"@),
        ),
        at_most_once(headers_view(r@), "cache-control"@),
        lowercase_names(headers_view(headers@)) ==> lowercase_names(headers_view(r@)),
{
    proof {
        reveal_strlit("cache-control");
        assert(lowercase_name("cache-control"@));
    }
    set_header(headers, "cache-control", "no-cache")
}

/// A cache instance: its mode, and whether a failed write is dropped rather
/// than reported beside the response.
#[derive(Clone, Copy, Debug)]
pub struct Cache {
    pub mode: CacheMode,
    pub best_effort_writes: bool,
}

impl Cache {
    /// A cache in `mode` that reports failed writes.
    pub fn new(mode: CacheMode) -> (r: Cache)
        ensures
            r.mode == mode,
            !r.best_effort_writes,
    {
        Cache { mode, best_effort_writes: false }
    }

    /// The first step for a request with `method`: bypass the cache when the
    /// method is neither `GET` nor `HEAD` or the mode is `NoStore`.
    pub fn plan(&self, method: &str) -> (r: Plan)
        ensures
            (r == Plan::Bypass) == bypasses(self.mode, method@),
    {
        if !is_method_get_head(method) || self.mode == CacheMode::NoStore {
            Plan::Bypass
        } else {
            Plan::Lookup
        }
    }

    /// The step after the lookup. `found` is what storage returned (a
    /// corrupt entry counts as none); `fresh` is the oracle's verdict on it.
    pub fn decide(&self, found: Option<CacheEntry>, fresh: bool) -> (r: Decision)
        ensures
            r.kind() == decision_kind(self.mode, found is Some, fresh),
            r matches Decision::Fail(e) ==> e == CacheError::CacheMiss,
            r matches Decision::Serve(s) ==> s@ == found->0.response@,
            r matches Decision::Revalidate(e) ==> e@ == found->0@,
    {
        match found {
            None => {
                if self.mode == CacheMode::OnlyIfCached {
                    Decision::Fail(CacheError::CacheMiss)
                } else {
                    Decision::Fetch
                }
            },
            Some(entry) => {
                match self.mode {
                    CacheMode::ForceCache | CacheMode::OnlyIfCached | CacheMode::IgnoreRules => {
                        Decision::Serve(entry.response)
                    },
                    CacheMode::Reload | CacheMode::NoStore => Decision::Fetch,
                    CacheMode::NoCache => Decision::Revalidate(entry),
                    CacheMode::Default => {
                        if fresh {
                            Decision::Serve(entry.response)
                        } else {
                            Decision::Revalidate(entry)
                        }
                    },
                }
            },
        }
    }

    /// The headers of the conditional request: the incoming request headers,
    /// with `cache-control: no-cache` in mode `NoCache`, then the validators
    /// that the oracle produced, which override headers of the same name.
    pub fn conditional_headers(
        &self,
        request: &Vec<(String, String)>,
        validators: &Vec<(String, String)>,
    ) -> (r: Vec<(String, String)>)
        ensures
            header_map(headers_view(r@)) == (if self.mode == CacheMode::NoCache {
                header_map(headers_view(request@)).insert(
                    "cache-control"@,
                    "no-cache"@,
                )
            } else {
                header_map(headers_view(request@))
            }).union_prefer_right(header_map(headers_view(validators@))),
            forall|n: Seq<char>|
                header_map(headers_view(validators@)).contains_key(n) ==> #[trigger] at_most_once(
                    headers_view(r@),
                    n,
                ),
            forall|k: int|
                0 <= k < r@.len() && header_map(headers_view(validators@)).contains_key(
                    #[trigger] headers_view(r@)[k].0,
                ) ==> headers_view(r@)[k].1 == header_map(headers_view(validators@))[headers_view(
                    r@,
                )[k].0],
            self.mode == CacheMode::NoCache ==> at_most_once(headers_view(r@), "cache-control"@),
            lowercase_names(headers_view(request@)) && lowercase_names(headers_view(validators@))
                ==> lowercase_names(headers_view(r@)),
    {
        if self.mode == CacheMode::NoCache {
            let forced = force_no_cache(request);
            merge_headers(&forced, validators)
        } else {
            merge_headers(request, validators)
        }
    }

    /// The step after a conditional fetch: on "not modified" the stored
    /// response keeps its status, body, URL and version and takes the reply's
    /// headers over its own; any other reply replaces it.
    pub fn on_revalidated(&self, stored: StoredResponse, reply: StoredResponse) -> (r:
        Revalidated)
        ensures
            reply.status == NOT_MODIFIED <==> r is Unchanged,
            r matches Revalidated::Unchanged(m) ==> {
                &&& m@.status == stored@.status
                &&& m@.body == stored@.body
                &&& m@.url == stored@.url
                &&& m@.version == stored@.version
                &&& header_map(m@.headers) == header_map(stored@.headers).union_prefer_right(
                    header_map(reply@.headers),
                )
                &&& forall|n: Seq<char>|
                    header_map(reply@.headers).contains_key(n) ==> #[trigger] at_most_once(
                        m@.headers,
                        n,
                    )
                &&& forall|k: int|
                    0 <= k < m@.headers.len() && header_map(reply@.headers).contains_key(
                        #[trigger] m@.headers[k].0,
                    ) ==> m@.headers[k].1 == header_map(reply@.headers)[m@.headers[k].0]
                &&& stored.wf() && reply.wf() ==> m.wf()
            },
            r matches Revalidated::Replaced(n) ==> n@ == reply@,
    {
        if reply.status == NOT_MODIFIED {
            let headers = merge_headers(&stored.headers, &reply.headers);
            Revalidated::Unchanged(
                StoredResponse {
                    status: stored.status,
                    headers,
                    body: stored.body,
                    url: stored.url,
                    version: stored.version,
                },
            )
        } else {
            Revalidated::Replaced(reply)
        }
    }

    /// Whether a freshly fetched response is written to storage: only where
    /// the oracle found it storable and the request did not bypass the cache.
    pub fn should_store(&self, method: &str, storable: bool) -> (r: bool)
        ensures
            r == (storable && !bypasses(self.mode, method@)),
    {
        storable && self.plan(method) == Plan::Lookup
    }

    /// The final answer once a write was attempted: the response always, and
    /// beside it a write error unless writes are best effort.
    pub fn finish(&self, response: StoredResponse, write_ok: bool) -> (r: (
        StoredResponse,
        Option<CacheError>,
    ))
        ensures
            r.0@ == response@,
            r.1 == (if write_ok || self.best_effort_writes {
                None
            } else {
                Some(CacheError::StorageWrite)
            }),
    {
        if write_ok || self.best_effort_writes {
            (response, None)
        } else {
            (response, Some(CacheError::StorageWrite))
        }
    }
}

} // verus!
