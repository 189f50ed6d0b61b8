//! Looking up entries by key in sequences, where the first entry with a key is the one found.

use vstd::prelude::*;

verus! {

/// The position of the first occurrence of `k` in `keys`, or `-1`.
pub open spec fn first_index<K>(keys: Seq<K>, k: K) -> int
    decreases keys.len(),
{
    if keys.len() == 0 {
        -1
    } else if keys[0] == k {
        0
    } else {
        let r = first_index(keys.drop_first(), k);
        if r < 0 {
            -1
        } else {
            r + 1
        }
    }
}

pub proof fn lemma_first_index_at<K>(keys: Seq<K>, k: K, i: int)
    requires
        0 <= i < keys.len(),
        keys[i] == k,
        forall|j: int| 0 <= j < i ==> keys[j] != k,
    ensures
        first_index(keys, k) == i,
    decreases i,
{
    if i > 0 {
        lemma_first_index_at(keys.drop_first(), k, i - 1);
    }
}

pub proof fn lemma_first_index_none<K>(keys: Seq<K>, k: K)
    requires
        forall|j: int| 0 <= j < keys.len() ==> keys[j] != k,
    ensures
        first_index(keys, k) == -1,
    decreases keys.len(),
{
    if keys.len() > 0 {
        lemma_first_index_none(keys.drop_first(), k);
    }
}

/// Where `k` is not found, no entry is `k`; where it is, the entry found is `k`.
pub proof fn lemma_first_index_found<K>(keys: Seq<K>, k: K)
    ensures
        -1 <= first_index(keys, k) < keys.len(),
        first_index(keys, k) == -1 ==> forall|j: int| 0 <= j < keys.len() ==> keys[j] != k,
        first_index(keys, k) >= 0 ==> keys[first_index(keys, k)] == k,
    decreases keys.len(),
{
    if keys.len() > 0 {
        lemma_first_index_found(keys.drop_first(), k);
        if first_index(keys, k) == -1 {
            assert forall|j: int| 0 <= j < keys.len() implies keys[j] != k by {
                if j > 0 {
                    assert(keys[j] == keys.drop_first()[j - 1]);
                }
            }
        }
    }
}

/// Adding a key at the end leaves every key that was already there found where it was.
pub proof fn lemma_first_index_push<K>(keys: Seq<K>, x: K, k: K)
    ensures
        first_index(keys.push(x), k) == if first_index(keys, k) >= 0 {
            first_index(keys, k)
        } else if x == k {
            keys.len() as int
        } else {
            -1
        },
    decreases keys.len(),
{
    if keys.len() > 0 {
        assert(keys.push(x)[0] == keys[0]);
        assert(keys.push(x).drop_first() =~= keys.drop_first().push(x));
        lemma_first_index_push(keys.drop_first(), x, k);
    } else {
        assert(keys.push(x)[0] == x);
        assert(keys.push(x).drop_first() =~= Seq::<K>::empty());
        assert(first_index(Seq::<K>::empty(), k) == -1);
    }
}

} // verus!
