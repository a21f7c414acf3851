use vstd::prelude::*;

verus! {

/// The map that an association list denotes: a later pair overrides an
/// earlier one with the same key.
pub open spec fn assoc_map<V>(s: Seq<(Seq<char>, V)>) -> Map<Seq<char>, V>
    decreases s.len(),
{
    if s.len() == 0 {
        Map::empty()
    } else {
        assoc_map(s.drop_last()).insert(s.last().0, s.last().1)
    }
}

/// The list with every pair under key `k` left out, the others in order.
pub open spec fn drop_key<V>(s: Seq<(Seq<char>, V)>, k: Seq<char>) -> Seq<(Seq<char>, V)>
    decreases s.len(),
{
    if s.len() == 0 {
        s
    } else {
        let rest = drop_key(s.drop_last(), k);
        if s.last().0 == k {
            rest
        } else {
            rest.push(s.last())
        }
    }
}

/// No key occurs twice.
pub open spec fn keys_unique<V>(s: Seq<(Seq<char>, V)>) -> bool {
    forall|i: int, j: int| 0 <= i < j < s.len() ==> s[i].0 != s[j].0
}

pub proof fn lemma_drop_key<V>(s: Seq<(Seq<char>, V)>, k: Seq<char>)
    ensures
        assoc_map(drop_key(s, k)) == assoc_map(s).remove(k),
        forall|i: int| 0 <= i < drop_key(s, k).len() ==> drop_key(s, k)[i].0 != k,
        forall|i: int|
            0 <= i < drop_key(s, k).len() ==> exists|j: int|
                0 <= j < s.len() && s[j] == #[trigger] drop_key(s, k)[i],
        keys_unique(s) ==> keys_unique(drop_key(s, k)),
    decreases s.len(),
{
    if s.len() > 0 {
        let d = s.drop_last();
        lemma_drop_key(d, k);
        let rest = drop_key(d, k);
        if s.last().0 == k {
            assert(assoc_map(s).remove(k) =~= assoc_map(d).remove(k));
            assert forall|i: int| 0 <= i < rest.len() implies exists|j: int|
                0 <= j < s.len() && s[j] == #[trigger] rest[i] by {
                let j = choose|j: int| 0 <= j < d.len() && d[j] == rest[i];
                assert(s[j] == d[j]);
            }
            if keys_unique(s) {
                assert(keys_unique(d));
            }
        } else {
            let r = rest.push(s.last());
            assert(r.drop_last() =~= rest);
            assert(assoc_map(r) =~= assoc_map(s).remove(k));
            assert forall|i: int| 0 <= i < r.len() implies exists|j: int|
                0 <= j < s.len() && s[j] == #[trigger] r[i] by {
                if i < rest.len() {
                    let j = choose|j: int| 0 <= j < d.len() && d[j] == rest[i];
                    assert(s[j] == d[j]);
                } else {
                    assert(s[s.len() - 1] == r[i]);
                }
            }
            if keys_unique(s) {
                assert(keys_unique(d));
                assert forall|i: int, j: int| 0 <= i < j < r.len() implies r[i].0 != r[j].0 by {
                    if j == r.len() - 1 {
                        let m = choose|m: int| 0 <= m < d.len() && d[m] == rest[i];
                        assert(s[m] == d[m]);
                        assert(s[s.len() - 1] == r[j]);
                    }
                }
            }
        }
    }
}

/// Where no pair at or after `i` has key `k`, the prefix up to `i` decides `k`.
pub proof fn lemma_prefix_decides<V>(s: Seq<(Seq<char>, V)>, i: int, k: Seq<char>)
    requires
        0 <= i <= s.len(),
        forall|j: int| i <= j < s.len() ==> s[j].0 != k,
    ensures
        assoc_map(s).contains_key(k) == assoc_map(s.take(i)).contains_key(k),
        assoc_map(s).contains_key(k) ==> assoc_map(s)[k] == assoc_map(s.take(i))[k],
    decreases s.len() - i,
{
    if i == s.len() {
        assert(s.take(i) =~= s);
    } else {
        let d = s.drop_last();
        lemma_prefix_decides(d, i, k);
        assert(d.take(i) =~= s.take(i));
    }
}

/// Taking one more pair of a list inserts that pair.
pub proof fn lemma_take_one_more<V>(s: Seq<(Seq<char>, V)>, i: int)
    requires
        0 <= i < s.len(),
    ensures
        assoc_map(s.take(i + 1)) == assoc_map(s.take(i)).insert(s[i].0, s[i].1),
{
    assert(s.take(i + 1).drop_last() =~= s.take(i));
}

/// Key `k` occurs in one pair at most.
pub open spec fn at_most_once<V>(s: Seq<(Seq<char>, V)>, k: Seq<char>) -> bool {
    forall|i: int, j: int| 0 <= i < j < s.len() && s[i].0 == k ==> s[j].0 != k
}

/// Leaving out the pairs under one key keeps another key's single occurrence.
pub proof fn lemma_drop_key_keeps_once<V>(s: Seq<(Seq<char>, V)>, n: Seq<char>, m: Seq<char>)
    requires
        at_most_once(s, m),
    ensures
        at_most_once(drop_key(s, n), m),
    decreases s.len(),
{
    if s.len() > 0 {
        let d = s.drop_last();
        assert(at_most_once(d, m)) by {
            assert forall|i: int, j: int| 0 <= i < j < d.len() && d[i].0 == m implies d[j].0
                != m by {
                assert(s[i] == d[i] && s[j] == d[j]);
            }
        }
        lemma_drop_key_keeps_once(d, n, m);
        lemma_drop_key(d, n);
        let rest = drop_key(d, n);
        if s.last().0 != n {
            let r = rest.push(s.last());
            assert(drop_key(s, n) == r);
            assert forall|i: int, j: int| 0 <= i < j < r.len() && r[i].0 == m implies r[j].0
                != m by {
                if j == r.len() - 1 {
                    let jj = choose|jj: int| 0 <= jj < d.len() && d[jj] == rest[i];
                    assert(s[jj] == d[jj]);
                    assert(s[s.len() - 1] == r[j]);
                } else {
                    assert(r[i] == rest[i] && r[j] == rest[j]);
                }
            }
        }
    }
}

/// A pair whose key occurs once gives the map's value for that key.
pub proof fn lemma_once_value<V>(s: Seq<(Seq<char>, V)>, i: int)
    requires
        0 <= i < s.len(),
        at_most_once(s, s[i].0),
    ensures
        assoc_map(s).contains_key(s[i].0),
        assoc_map(s)[s[i].0] == s[i].1,
{
    lemma_prefix_decides(s, i + 1, s[i].0);
    lemma_take_one_more(s, i);
}

/// Every key of the list is a key of its map.
pub proof fn lemma_key_in_map<V>(s: Seq<(Seq<char>, V)>, i: int)
    requires
        0 <= i < s.len(),
    ensures
        assoc_map(s).contains_key(s[i].0),
    decreases s.len(),
{
    if i < s.len() - 1 {
        lemma_key_in_map(s.drop_last(), i);
    }
}

} // verus!
