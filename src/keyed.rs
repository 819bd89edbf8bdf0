use vstd::prelude::*;

verus! {

/// A record stored under a byte-string key.
pub trait Keyed {
    spec fn key(&self) -> Seq<u8>;
}

pub open spec fn has_key<T: Keyed>(s: Seq<T>, k: Seq<u8>) -> bool {
    exists|i: int| 0 <= i < s.len() && s[i].key() == k
}

pub open spec fn index_of<T: Keyed>(s: Seq<T>, k: Seq<u8>) -> int {
    choose|i: int| 0 <= i < s.len() && s[i].key() == k
}

pub open spec fn keys_unique<T: Keyed>(s: Seq<T>) -> bool {
    forall|i: int, j: int|
        0 <= i < s.len() && 0 <= j < s.len() && s[i].key() == s[j].key() ==> i == j
}

/// A sequence of records with unique keys, seen as a map from key to record.
pub open spec fn keyed<T: Keyed>(s: Seq<T>) -> Map<Seq<u8>, T> {
    Map::new(|k: Seq<u8>| has_key(s, k), |k: Seq<u8>| s[index_of(s, k)])
}

pub proof fn lemma_keyed_at<T: Keyed>(s: Seq<T>, i: int)
    requires
        keys_unique(s),
        0 <= i < s.len(),
    ensures
        keyed(s).contains_key(s[i].key()),
        keyed(s)[s[i].key()] == s[i],
{
    assert(has_key(s, s[i].key()));
    let j = index_of(s, s[i].key());
    assert(0 <= j < s.len() && s[j].key() == s[i].key());
}

pub proof fn lemma_keyed_update<T: Keyed>(s: Seq<T>, i: int, x: T)
    requires
        keys_unique(s),
        0 <= i < s.len(),
        x.key() == s[i].key(),
    ensures
        keys_unique(s.update(i, x)),
        keyed(s.update(i, x)) == keyed(s).insert(x.key(), x),
{
    let t = s.update(i, x);
    assert(keys_unique(t));
    assert forall|k: Seq<u8>| has_key(t, k) == has_key(s, k) by {
        if has_key(t, k) {
            let j = choose|j: int| 0 <= j < t.len() && t[j].key() == k;
            assert(s[j].key() == k);
        }
        if has_key(s, k) {
            let j = choose|j: int| 0 <= j < s.len() && s[j].key() == k;
            assert(t[j].key() == k);
        }
    }
    assert forall|k: Seq<u8>| #[trigger] has_key(t, k) implies keyed(t)[k] == keyed(s).insert(
        x.key(),
        x,
    )[k] by {
        let j = index_of(t, k);
        assert(0 <= j < t.len() && t[j].key() == k);
        lemma_keyed_at(s, j);
        lemma_keyed_at(t, j);
    }
    assert(keyed(t) =~= keyed(s).insert(x.key(), x));
}

pub proof fn lemma_keyed_push<T: Keyed>(s: Seq<T>, x: T)
    requires
        keys_unique(s),
        !has_key(s, x.key()),
    ensures
        keys_unique(s.push(x)),
        keyed(s.push(x)) == keyed(s).insert(x.key(), x),
{
    let t = s.push(x);
    assert(keys_unique(t));
    assert forall|k: Seq<u8>| has_key(t, k) == (has_key(s, k) || k == x.key()) by {
        if has_key(t, k) {
            let j = choose|j: int| 0 <= j < t.len() && t[j].key() == k;
            if j < s.len() {
                assert(s[j].key() == k);
            }
        }
        if has_key(s, k) {
            let j = choose|j: int| 0 <= j < s.len() && s[j].key() == k;
            assert(t[j].key() == k);
        }
        assert(t[s.len() as int] == x);
    }
    assert forall|k: Seq<u8>| #[trigger] has_key(t, k) implies keyed(t)[k] == keyed(s).insert(
        x.key(),
        x,
    )[k] by {
        let j = index_of(t, k);
        assert(0 <= j < t.len() && t[j].key() == k);
        lemma_keyed_at(t, j);
        if j < s.len() {
            lemma_keyed_at(s, j);
        }
    }
    assert(keyed(t) =~= keyed(s).insert(x.key(), x));
}

} // verus!
