use crate::text::str_eq;
use vstd::prelude::*;

verus! {

/// That `i` is the first place of `entries` whose key is `key`.
pub open spec fn is_first_with_key<T>(entries: Seq<(String, T)>, key: Seq<char>, i: int) -> bool {
    &&& 0 <= i < entries.len()
    &&& entries[i].0@ == key
    &&& forall|j: int| 0 <= j < i ==> (#[trigger] entries[j]).0@ != key
}

/// That some entry has the key `key`.
pub open spec fn has_key<T>(entries: Seq<(String, T)>, key: Seq<char>) -> bool {
    exists|i: int| 0 <= i < entries.len() && (#[trigger] entries[i]).0@ == key
}

/// The first place of `entries` whose key is `key`, if there is one.
pub open spec fn spec_find<T>(entries: Seq<(String, T)>, key: Seq<char>) -> Option<int> {
    if exists|i: int| is_first_with_key(entries, key, i) {
        Some(choose|i: int| is_first_with_key(entries, key, i))
    } else {
        None
    }
}

/// What is filed under `key`: the value of the first entry with that key.
pub open spec fn spec_get<T>(entries: Seq<(String, T)>, key: Seq<char>) -> Option<T> {
    match spec_find(entries, key) {
        Some(i) => Some(entries[i].1),
        None => None,
    }
}

/// A first place with the key is the place that `spec_find` names.
pub proof fn lemma_find_is_first<T>(entries: Seq<(String, T)>, key: Seq<char>, i: int)
    requires
        is_first_with_key(entries, key, i),
    ensures
        spec_find(entries, key) == Some(i),
{
    let k = choose|k: int| is_first_with_key(entries, key, k);
    if k < i {
        assert(entries[k].0@ == key);
    } else if i < k {
        assert(entries[i].0@ == key);
    }
}

/// Where no entry has the key, `spec_find` names no place, and the other way round.
pub proof fn lemma_find_none<T>(entries: Seq<(String, T)>, key: Seq<char>)
    ensures
        spec_find(entries, key) is None <==> !has_key(entries, key),
        spec_find(entries, key) matches Some(i) ==> is_first_with_key(entries, key, i),
{
    if has_key(entries, key) {
        let w = choose|i: int| 0 <= i < entries.len() && (#[trigger] entries[i]).0@ == key;
        lemma_first_exists(entries, key, w);
    } else {
        if exists|i: int| is_first_with_key(entries, key, i) {
            let k = choose|i: int| is_first_with_key(entries, key, i);
            assert(entries[k].0@ == key);
        }
    }
}

proof fn lemma_first_exists<T>(entries: Seq<(String, T)>, key: Seq<char>, w: int)
    requires
        0 <= w < entries.len(),
        entries[w].0@ == key,
    ensures
        exists|i: int| is_first_with_key(entries, key, i),
    decreases w,
{
    if exists|j: int| 0 <= j < w && (#[trigger] entries[j]).0@ == key {
        let j = choose|j: int| 0 <= j < w && (#[trigger] entries[j]).0@ == key;
        lemma_first_exists(entries, key, j);
    } else {
        assert(is_first_with_key(entries, key, w));
    }
}

/// The first place of `entries` whose key is `key`.
pub fn find<T>(entries: &Vec<(String, T)>, key: &str) -> (r: Option<usize>)
    ensures
        r matches Some(i) ==> spec_find(entries@, key@) == Some(i as int) && i < entries.len(),
        r is None ==> spec_find(entries@, key@) is None,
{
    let mut i: usize = 0;
    while i < entries.len()
        invariant
            i <= entries.len(),
            forall|j: int| 0 <= j < i ==> (#[trigger] entries@[j]).0@ != key@,
        decreases entries.len() - i,
    {
        if str_eq(entries[i].0.as_str(), key) {
            proof {
                lemma_find_is_first(entries@, key@, i as int);
            }
            return Some(i);
        }
        i += 1;
    }
    proof {
        lemma_find_none(entries@, key@);
    }
    None
}

/// What is filed under `key`.
pub fn get<'a, T>(entries: &'a Vec<(String, T)>, key: &str) -> (r: Option<&'a T>)
    ensures
        r matches Some(v) ==> spec_get(entries@, key@) == Some(*v),
        r is None ==> spec_get(entries@, key@) is None,
{
    match find(entries, key) {
        Some(i) => Some(&entries[i].1),
        None => None,
    }
}

/// Whether anything is filed under `key`.
pub fn contains_key<T>(entries: &Vec<(String, T)>, key: &str) -> (b: bool)
    ensures
        b == has_key(entries@, key@),
{
    proof {
        lemma_find_none(entries@, key@);
    }
    find(entries, key).is_some()
}

/// Files `value` under `key`: in place of what the first entry with that
/// key holds, and as a new last entry where there is none.
pub fn insert<T>(entries: &mut Vec<(String, T)>, key: &str, value: T)
    ensures
        spec_find(old(entries)@, key@) matches Some(k) ==> final(entries)@.len() == old(entries)@.len()
            && final(entries)@[k].0@ == key@ && final(entries)@[k].1 == value && forall|j: int|
            0 <= j < old(entries)@.len() && j != k ==> final(entries)@[j] == old(entries)@[j],
        spec_find(old(entries)@, key@) is None ==> final(entries)@.len() == old(entries)@.len() + 1
            && final(entries)@.last().0@ == key@ && final(entries)@.last().1 == value
            && final(entries)@.drop_last() == old(entries)@,
        spec_get(final(entries)@, key@) == Some(value),
{
    match find(entries, key) {
        Some(k) => {
            proof {
                lemma_find_none(entries@, key@);
            }
            entries.set(k, (key.to_owned(), value));
            proof {
                assert forall|j: int| 0 <= j < k implies (#[trigger] entries@[j]).0@ != key@ by {
                    assert(old(entries)@[j].0@ != key@);
                }
                lemma_find_is_first(entries@, key@, k as int);
            }
        },
        None => {
            proof {
                lemma_find_none(entries@, key@);
            }
            entries.push((key.to_owned(), value));
            proof {
                let last = old(entries)@.len() as int;
                assert(entries@.drop_last() =~= old(entries)@);
                assert forall|j: int| 0 <= j < last implies (#[trigger] entries@[j]).0@ != key@ by {
                    assert(old(entries)@[j].0@ != key@);
                }
                lemma_find_is_first(entries@, key@, last);
            }
        },
    }
}

} // verus!
