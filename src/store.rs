use vstd::prelude::*;

use crate::assoc::{
    assoc_map, drop_key, keys_unique, lemma_drop_key, lemma_prefix_decides, lemma_take_one_more,
};
use crate::key::{key_of, req_key};
use crate::response::{copy_bytes, ResponseView, StoredResponse};

verus! {

/// A stored response together with the serialized policy record that the
/// freshness oracle produced for it. The record is opaque here.
#[derive(Debug)]
pub struct CacheEntry {
    pub response: StoredResponse,
    pub policy: Vec<u8>,
}

pub struct EntryView {
    pub response: ResponseView,
    pub policy: Seq<u8>,
}

impl View for CacheEntry {
    type V = EntryView;

    open spec fn view(&self) -> EntryView {
        EntryView { response: self.response@, policy: self.policy@ }
    }
}

impl CacheEntry {
    /// A copy of this entry, field for field.
    pub fn duplicate(&self) -> (r: CacheEntry)
        ensures
            r@ == self@,
    {
        CacheEntry { response: self.response.duplicate(), policy: copy_bytes(&self.policy) }
    }
}

/// The rows of a store seen as (key, entry) pairs.
pub open spec fn rows_view(rows: Seq<(String, CacheEntry)>) -> Seq<(Seq<char>, EntryView)> {
    rows.map_values(|p: (String, CacheEntry)| (p.0@, p.1@))
}

proof fn lemma_rows_view_push(rows: Seq<(String, CacheEntry)>, p: (String, CacheEntry))
    ensures
        rows_view(rows.push(p)) == rows_view(rows).push((p.0@, p.1@)),
{
    assert(rows_view(rows.push(p)) =~= rows_view(rows).push((p.0@, p.1@)));
}

/// An in-process storage backend: one row per key, each row holding the
/// whole entry.
#[derive(Debug)]
pub struct MemoryStore {
    rows: Vec<(String, CacheEntry)>,
}

impl View for MemoryStore {
    type V = Map<Seq<char>, EntryView>;

    closed spec fn view(&self) -> Map<Seq<char>, EntryView> {
        assoc_map(rows_view(self.rows@))
    }
}

impl MemoryStore {
    /// The rows, as (key, entry) pairs.
    pub closed spec fn rows(&self) -> Seq<(Seq<char>, EntryView)> {
        rows_view(self.rows@)
    }

    /// Each key is held by one row at most, and the rows make up the view.
    pub open spec fn wf(&self) -> bool {
        &&& keys_unique(self.rows())
        &&& self@ == assoc_map(self.rows())
    }

    /// An empty store.
    pub fn new() -> (r: MemoryStore)
        ensures
            r.wf(),
            r@ == Map::<Seq<char>, EntryView>::empty(),
    {
        let r = MemoryStore { rows: Vec::new() };
        assert(r.rows() =~= Seq::<(Seq<char>, EntryView)>::empty());
        r
    }

    /// The rows without the one under `key`, copied.
    fn rows_without(&self, key: &String) -> (r: Vec<(String, CacheEntry)>)
        requires
            self.wf(),
        ensures
            rows_view(r@) == drop_key(self.rows(), key@),
            keys_unique(rows_view(r@)),
            assoc_map(rows_view(r@)) == self@.remove(key@),
            forall|i: int| 0 <= i < r@.len() ==> rows_view(r@)[i].0 != key@,
    {
        let ghost rv = self.rows();
        let mut out: Vec<(String, CacheEntry)> = Vec::new();
        let mut i: usize = 0;
        while i < self.rows.len()
            invariant
                i <= rv.len(),
                rv == rows_view(self.rows@),
                rows_view(out@) == drop_key(rv.take(i as int), key@),
            decreases rv.len() - i,
        {
            assert(rv.take(i + 1).drop_last() =~= rv.take(i as int));
            assert(rv[i as int].0 == self.rows@[i as int].0@);
            if self.rows[i].0 != *key {
                let p = (self.rows[i].0.clone(), self.rows[i].1.duplicate());
                proof {
                    lemma_rows_view_push(out@, p);
                }
                out.push(p);
            }
            i += 1;
        }
        assert(rv.take(i as int) =~= rv);
        proof {
            lemma_drop_key(rv, key@);
        }
        out
    }

    /// The entry stored for the request, if any.
    pub fn get(&self, method: &str, url: &str) -> (r: Option<CacheEntry>)
        requires
            self.wf(),
        ensures
            r is Some == self@.contains_key(key_of(method@, url@)),
            r is Some ==> r->0@ == self@[key_of(method@, url@)],
    {
        let key = req_key(method, url);
        let ghost rv = self.rows();
        let mut i: usize = self.rows.len();
        while i > 0
            invariant
                i <= rv.len(),
                rv == rows_view(self.rows@),
                key@ == key_of(method@, url@),
                forall|j: int| i <= j < rv.len() ==> rv[j].0 != key@,
            decreases i,
        {
            assert(rv[i - 1].0 == self.rows@[i - 1].0@);
            if self.rows[i - 1].0 == key {
                proof {
                    lemma_prefix_decides(rv, i as int, key@);
                    lemma_take_one_more(rv, i - 1);
                    assert(rv[i - 1].1 == self.rows@[i - 1].1@);
                }
                return Some(self.rows[i - 1].1.duplicate());
            }
            i -= 1;
        }
        proof {
            lemma_prefix_decides(rv, 0, key@);
            assert(assoc_map(rv.take(0)) =~= Map::<Seq<char>, EntryView>::empty());
        }
        None
    }

    /// Stores the entry for the request, replacing any earlier one, and hands
    /// the response back.
    pub fn put(&mut self, method: &str, url: &str, response: StoredResponse, policy: Vec<u8>) -> (r:
        StoredResponse)
        requires
            old(self).wf(),
        ensures
            final(self).wf(),
            final(self)@ == old(self)@.insert(
                key_of(method@, url@),
                EntryView { response: response@, policy: policy@ },
            ),
            r@ == response@,
    {
        let key = req_key(method, url);
        let mut rows = self.rows_without(&key);
        let ghost before = rows_view(rows@);
        let entry = CacheEntry { response: response.duplicate(), policy };
        let p = (key, entry);
        proof {
            lemma_rows_view_push(rows@, p);
        }
        rows.push(p);
        proof {
            let after = rows_view(rows@);
            assert(after.drop_last() =~= before);
            assert forall|i: int, j: int| 0 <= i < j < after.len() implies after[i].0
                != after[j].0 by {
                if j < before.len() {
                    assert(after[i] == before[i] && after[j] == before[j]);
                } else {
                    assert(after[i] == before[i]);
                }
            }
        }
        self.rows = rows;
        response
    }

    /// Removes the entry stored for the request; nothing happens where there
    /// is none.
    pub fn delete(&mut self, method: &str, url: &str)
        requires
            old(self).wf(),
        ensures
            final(self).wf(),
            final(self)@ == old(self)@.remove(key_of(method@, url@)),
    {
        let key = req_key(method, url);
        let rows = self.rows_without(&key);
        self.rows = rows;
    }

    /// Removes every entry.
    pub fn clear(&mut self)
        ensures
            final(self).wf(),
            final(self)@ == Map::<Seq<char>, EntryView>::empty(),
    {
        self.rows = Vec::new();
        assert(self.rows() =~= Seq::<(Seq<char>, EntryView)>::empty());
    }
}

} // verus!
