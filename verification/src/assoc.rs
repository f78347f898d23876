//! Association lists keyed by names: the keyed state of the task functions.
use vstd::prelude::*;

verus! {

/// The names of the entries of an association list.
pub open spec fn keys_of<V>(entries: Seq<(String, V)>) -> Seq<Seq<char>> {
    entries.map_values(|e: (String, V)| e.0@)
}

/// The index of the last occurrence of `k` in `keys`, `-1` when there is none.
pub open spec fn last_index_of(keys: Seq<Seq<char>>, k: Seq<char>) -> int
    decreases keys.len(),
{
    if keys.len() == 0 {
        -1
    } else if keys.last() == k {
        keys.len() - 1
    } else {
        last_index_of(keys.drop_last(), k)
    }
}

/// `last_index_of` is `-1` or an index where `k` occurs.
pub proof fn lemma_last_index_of(keys: Seq<Seq<char>>, k: Seq<char>)
    ensures
        -1 <= last_index_of(keys, k) < keys.len(),
        last_index_of(keys, k) >= 0 ==> keys[last_index_of(keys, k)] == k,
        last_index_of(keys, k) == -1 <==> !keys.contains(k),
    decreases keys.len(),
{
    if keys.len() > 0 {
        lemma_last_index_of(keys.drop_last(), k);
        if keys.last() != k {
            if keys.drop_last().contains(k) {
                let j = choose|j: int| 0 <= j < keys.drop_last().len() && keys.drop_last()[j] == k;
                assert(keys[j] == k);
            }
            if keys.contains(k) {
                let j = choose|j: int| 0 <= j < keys.len() && keys[j] == k;
                assert(j < keys.len() - 1);
                assert(keys.drop_last()[j] == k);
            }
        } else {
            assert(keys[keys.len() - 1] == k);
        }
    }
}

/// Without `k` after position `i`, the last occurrence of `k` lies in the first `i` keys.
proof fn lemma_last_index_prefix(keys: Seq<Seq<char>>, k: Seq<char>, i: int)
    requires
        0 <= i <= keys.len(),
        forall|j: int| i <= j < keys.len() ==> keys[j] != k,
    ensures
        last_index_of(keys, k) == last_index_of(keys.subrange(0, i), k),
    decreases keys.len() - i,
{
    if i < keys.len() {
        assert(keys.drop_last().subrange(0, i) =~= keys.subrange(0, i));
        lemma_last_index_prefix(keys.drop_last(), k, i);
    } else {
        assert(keys.subrange(0, i) =~= keys);
    }
}

/// Returns the index of the last entry named `k`.
pub fn find_last<V>(entries: &Vec<(String, V)>, k: &String) -> (r: Option<usize>)
    ensures
        match r {
            Some(i) => i as int == last_index_of(keys_of(entries@), k@),
            None => last_index_of(keys_of(entries@), k@) == -1,
        },
{
    let ghost keys = keys_of(entries@);
    let mut i: usize = entries.len();
    while i > 0
        invariant
            i <= entries.len(),
            keys == keys_of(entries@),
            forall|j: int| i <= j < keys.len() ==> keys[j] != k@,
        decreases i,
    {
        proof { lemma_last_index_prefix(keys, k@, i as int); }
        if entries[i - 1].0 == *k {
            proof {
                assert(keys.subrange(0, i as int).last() == k@);
            }
            return Some(i - 1);
        }
        assert(keys[i - 1] != k@);
        i = i - 1;
    }
    proof {
        lemma_last_index_prefix(keys, k@, 0);
    }
    None
}

} // verus!
