use vstd::prelude::*;

use crate::assoc::{
    assoc_map, at_most_once, drop_key, lemma_drop_key, lemma_drop_key_keeps_once, lemma_key_in_map,
    lemma_once_value, lemma_take_one_more,
};

verus! {

/// The protocol version a response was received with.
#[derive(Clone, Copy, Debug, PartialEq, Eq, Structural)]
pub enum HttpVersion {
    Http09,
    Http10,
    Http11,
    H2,
    H3,
}

/// A response as the cache keeps it: status, headers (lower-case names, in
/// the order they are replayed), the whole body, the effective URL and the
/// protocol version.
#[derive(Debug)]
pub struct StoredResponse {
    pub status: u16,
    pub headers: Vec<(String, String)>,
    pub body: Vec<u8>,
    pub url: String,
    pub version: HttpVersion,
}

pub struct ResponseView {
    pub status: u16,
    pub headers: Seq<(Seq<char>, Seq<char>)>,
    pub body: Seq<u8>,
    pub url: Seq<char>,
    pub version: HttpVersion,
}

/// The header list seen as pairs of character sequences.
pub open spec fn headers_view(h: Seq<(String, String)>) -> Seq<(Seq<char>, Seq<char>)> {
    h.map_values(|p: (String, String)| (p.0@, p.1@))
}

/// The header mapping of a list: the last value given for a name counts.
pub open spec fn header_map(h: Seq<(Seq<char>, Seq<char>)>) -> Map<Seq<char>, Seq<char>> {
    assoc_map(h)
}

/// A header name as the cache keeps it: no upper-case ASCII letter.
pub open spec fn lowercase_name(n: Seq<char>) -> bool {
    forall|i: int| 0 <= i < n.len() ==> !('A' <= #[trigger] n[i] <= 'Z')
}

/// Every header name of the list is lower-case.
pub open spec fn lowercase_names(h: Seq<(Seq<char>, Seq<char>)>) -> bool {
    forall|i: int| 0 <= i < h.len() ==> lowercase_name(#[trigger] h[i].0)
}

impl View for StoredResponse {
    type V = ResponseView;

    open spec fn view(&self) -> ResponseView {
        ResponseView {
            status: self.status,
            headers: headers_view(self.headers@),
            body: self.body@,
            url: self.url@,
            version: self.version,
        }
    }
}

proof fn lemma_headers_view_push(h: Seq<(String, String)>, p: (String, String))
    ensures
        headers_view(h.push(p)) == headers_view(h).push((p.0@, p.1@)),
{
    assert(headers_view(h.push(p)) =~= headers_view(h).push((p.0@, p.1@)));
}

/// A copy of a header list.
pub fn copy_headers(h: &Vec<(String, String)>) -> (r: Vec<(String, String)>)
    ensures
        headers_view(r@) == headers_view(h@),
{
    let mut out: Vec<(String, String)> = Vec::new();
    let mut i: usize = 0;
    while i < h.len()
        invariant
            i <= h@.len(),
            headers_view(out@) == headers_view(h@).take(i as int),
        decreases h@.len() - i,
    {
        let p = (h[i].0.clone(), h[i].1.clone());
        proof {
            lemma_headers_view_push(out@, p);
        }
        out.push(p);
        i += 1;
        assert(headers_view(out@) =~= headers_view(h@).take(i as int));
    }
    assert(headers_view(h@).take(i as int) =~= headers_view(h@));
    out
}

/// The header list with `name` set to `value`: every earlier value of that
/// name is removed, the other headers keep their order, and the new pair
/// comes last.
pub fn set_header(headers: &Vec<(String, String)>, name: &str, value: &str) -> (r: Vec<
    (String, String),
>)
    ensures
        headers_view(r@) == drop_key(headers_view(headers@), name@).push((name@, value@)),
        header_map(headers_view(r@)) == header_map(headers_view(headers@)).insert(
            name@,
            value@,
        ),
        at_most_once(headers_view(r@), name@),
        forall|m: Seq<char>|
            m != name@ && at_most_once(headers_view(headers@), m) ==> #[trigger] at_most_once(
                headers_view(r@),
                m,
            ),
        lowercase_names(headers_view(headers@)) && lowercase_name(name@) ==> lowercase_names(
            headers_view(r@),
        ),
{
    let ghost hv = headers_view(headers@);
    let key = String::from_str(name);
    let mut out: Vec<(String, String)> = Vec::new();
    let mut i: usize = 0;
    while i < headers.len()
        invariant
            i <= headers@.len(),
            hv == headers_view(headers@),
            key@ == name@,
            headers_view(out@) == drop_key(hv.take(i as int), name@),
        decreases headers@.len() - i,
    {
        assert(hv.take(i + 1).drop_last() =~= hv.take(i as int));
        if headers[i].0 != key {
            let p = (headers[i].0.clone(), headers[i].1.clone());
            proof {
                lemma_headers_view_push(out@, p);
            }
            out.push(p);
        }
        i += 1;
    }
    assert(hv.take(i as int) =~= hv);
    let p = (key, String::from_str(value));
    proof {
        lemma_headers_view_push(out@, p);
        lemma_drop_key(hv, name@);
        let r = drop_key(hv, name@).push((name@, value@));
        assert(r.drop_last() =~= drop_key(hv, name@));
        assert(assoc_map(r) =~= assoc_map(hv).insert(name@, value@));
        let d = drop_key(hv, name@);
        assert forall|m: Seq<char>| m != name@ && at_most_once(hv, m) implies #[trigger] at_most_once(
            r,
            m,
        ) by {
            lemma_drop_key_keeps_once(hv, name@, m);
            assert forall|i: int, j: int| 0 <= i < j < r.len() && r[i].0 == m implies r[j].0
                != m by {
                assert(r[i] == d[i]);
                if j < d.len() {
                    assert(r[j] == d[j]);
                }
            }
        }
        assert forall|i: int, j: int| 0 <= i < j < r.len() && r[i].0 == name@ implies r[j].0
            != name@ by {
            assert(r[i] == d[i]);
        }
        if lowercase_names(hv) && lowercase_name(name@) {
            assert forall|i: int| 0 <= i < r.len() implies lowercase_name(#[trigger] r[i].0) by {
                if i < d.len() {
                    assert(r[i] == d[i]);
                    let j = choose|j: int| 0 <= j < hv.len() && hv[j] == d[i];
                    assert(lowercase_name(hv[j].0));
                }
            }
        }
    }
    out.push(p);
    out
}

/// Applies `updates` onto `base`: a name given in `updates` takes the value
/// given there (the last one, where it is given twice); every other header of
/// `base` is left as it was.
pub fn merge_headers(base: &Vec<(String, String)>, updates: &Vec<(String, String)>) -> (r: Vec<
    (String, String),
>)
    ensures
        header_map(headers_view(r@)) == header_map(headers_view(base@)).union_prefer_right(
            header_map(headers_view(updates@)),
        ),
        forall|n: Seq<char>|
            header_map(headers_view(updates@)).contains_key(n) ==> #[trigger] at_most_once(
                headers_view(r@),
                n,
            ),
        forall|n: Seq<char>|
            !header_map(headers_view(updates@)).contains_key(n) && at_most_once(
                headers_view(base@),
                n,
            ) ==> #[trigger] at_most_once(headers_view(r@), n),
        forall|k: int|
            0 <= k < r@.len() && header_map(headers_view(updates@)).contains_key(
                #[trigger] headers_view(r@)[k].0,
            ) ==> headers_view(r@)[k].1 == header_map(headers_view(updates@))[headers_view(
                r@,
            )[k].0],
        lowercase_names(headers_view(base@)) && lowercase_names(headers_view(updates@))
            ==> lowercase_names(headers_view(r@)),
{
    let ghost uv = headers_view(updates@);
    let ghost bv = headers_view(base@);
    let mut out = copy_headers(base);
    let mut i: usize = 0;
    assert(assoc_map(uv.take(0)) =~= Map::<Seq<char>, Seq<char>>::empty());
    assert(assoc_map(headers_view(base@)).union_prefer_right(assoc_map(uv.take(0)))
        =~= assoc_map(headers_view(base@)));
    while i < updates.len()
        invariant
            i <= updates@.len(),
            uv == headers_view(updates@),
            bv == headers_view(base@),
            assoc_map(headers_view(out@)) == assoc_map(headers_view(base@)).union_prefer_right(
                assoc_map(uv.take(i as int)),
            ),
            forall|n: Seq<char>|
                assoc_map(uv.take(i as int)).contains_key(n) ==> #[trigger] at_most_once(
                    headers_view(out@),
                    n,
                ),
            forall|n: Seq<char>|
                !assoc_map(uv).contains_key(n) && at_most_once(bv, n) ==> #[trigger] at_most_once(
                    headers_view(out@),
                    n,
                ),
            lowercase_names(bv) && lowercase_names(uv) ==> lowercase_names(headers_view(out@)),
        decreases updates@.len() - i,
    {
        proof {
            lemma_take_one_more(uv, i as int);
            lemma_key_in_map(uv, i as int);
            if lowercase_names(uv) {
                assert(lowercase_name(uv[i as int].0));
            }
        }
        assert(uv[i as int].0 == updates@[i as int].0@);
        let next = set_header(&out, updates[i].0.as_str(), updates[i].1.as_str());
        out = next;
        assert(assoc_map(headers_view(out@)) =~= assoc_map(headers_view(base@)).union_prefer_right(
            assoc_map(uv.take(i + 1)),
        ));
        i += 1;
    }
    assert(uv.take(i as int) =~= uv);
    proof {
        let rv = headers_view(out@);
        assert forall|k: int|
            0 <= k < out@.len() && assoc_map(uv).contains_key(#[trigger] rv[k].0) implies rv[k].1
            == assoc_map(uv)[rv[k].0] by {
            lemma_once_value(rv, k);
        }
    }
    out
}

/// A copy of a byte buffer.
pub fn copy_bytes(b: &Vec<u8>) -> (r: Vec<u8>)
    ensures
        r@ == b@,
{
    let mut out: Vec<u8> = Vec::new();
    let mut i: usize = 0;
    while i < b.len()
        invariant
            i <= b@.len(),
            out@ == b@.take(i as int),
        decreases b@.len() - i,
    {
        out.push(b[i]);
        i += 1;
        assert(out@ =~= b@.take(i as int));
    }
    assert(b@.take(i as int) =~= b@);
    out
}

impl StoredResponse {
    /// The response's header names are all lower-case.
    pub open spec fn wf(&self) -> bool {
        lowercase_names(self@.headers)
    }

    /// A copy of this response, field for field.
    pub fn duplicate(&self) -> (r: StoredResponse)
        ensures
            r@ == self@,
    {
        StoredResponse {
            status: self.status,
            headers: copy_headers(&self.headers),
            body: copy_bytes(&self.body),
            url: self.url.clone(),
            version: self.version,
        }
    }

    /// The value of header `name`, if the response carries it.
    pub fn header(&self, name: &str) -> (r: Option<String>)
        ensures
            r is Some == header_map(self@.headers).contains_key(name@),
            r is Some ==> r->0@ == header_map(self@.headers)[name@],
    {
        let ghost hv = self@.headers;
        let key = String::from_str(name);
        let mut i: usize = self.headers.len();
        while i > 0
            invariant
                i <= hv.len(),
                hv == headers_view(self.headers@),
                key@ == name@,
                forall|j: int| i <= j < hv.len() ==> hv[j].0 != name@,
            decreases i,
        {
            if self.headers[i - 1].0 == key {
                proof {
                    crate::assoc::lemma_prefix_decides(hv, i as int, name@);
                    lemma_take_one_more(hv, i - 1);
                }
                return Some(self.headers[i - 1].1.clone());
            }
            i -= 1;
        }
        proof {
            crate::assoc::lemma_prefix_decides(hv, 0, name@);
            assert(assoc_map(hv.take(0)) =~= Map::<Seq<char>, Seq<char>>::empty());
        }
        None
    }
}

} // verus!
