//! Lookup in lists of keyed entries, the form in which the library holds
//! the tables of a configuration.

use vstd::prelude::*;

use crate::external::str_equal;

verus! {

/// The index of the first entry whose key is `k`, if there is one.
pub open spec fn first_key_index<V>(entries: Seq<(String, V)>, k: Seq<char>) -> Option<int>
    decreases entries.len(),
{
    if entries.len() == 0 {
        None
    } else if entries[0].0@ == k {
        Some(0)
    } else {
        match first_key_index(entries.drop_first(), k) {
            Some(i) => Some(i + 1),
            None => None,
        }
    }
}

/// `first_key_index` finds the first entry with the key, and only that.
pub proof fn lemma_first_key_index<V>(entries: Seq<(String, V)>, k: Seq<char>)
    ensures
        match first_key_index(entries, k) {
            Some(i) => 0 <= i < entries.len() && entries[i].0@ == k && forall|j: int|
                0 <= j < i ==> entries[j].0@ != k,
            None => forall|j: int| 0 <= j < entries.len() ==> entries[j].0@ != k,
        },
    decreases entries.len(),
{
    if entries.len() > 0 && entries[0].0@ != k {
        lemma_first_key_index(entries.drop_first(), k);
        assert forall|j: int| 1 <= j < entries.len() implies entries[j] == entries.drop_first()[j
            - 1] by {}
    }
}

/// Whether no two entries have the same key.
pub open spec fn keys_distinct<V>(entries: Seq<(String, V)>) -> bool {
    forall|i: int, j: int| 0 <= i < j < entries.len() ==> entries[i].0@ != entries[j].0@
}

/// The value of the first entry whose key is `k`.
pub open spec fn value_of<V>(entries: Seq<(String, V)>, k: Seq<char>) -> Option<V> {
    match first_key_index(entries, k) {
        Some(i) => Some(entries[i].1),
        None => None,
    }
}

/// Finds the index of the first entry whose key is `k`.
pub fn position_of_key<V>(entries: &Vec<(String, V)>, k: &str) -> (r: Option<usize>)
    ensures
        match r {
            Some(i) => i < entries@.len() && first_key_index(entries@, k@) == Some(i as int),
            None => first_key_index(entries@, k@) is None,
        },
{
    proof {
        lemma_first_key_index(entries@, k@);
    }
    let mut i: usize = 0;
    while i < entries.len()
        invariant
            i <= entries@.len(),
            forall|j: int| 0 <= j < i ==> entries@[j].0@ != k@,
            match first_key_index(entries@, k@) {
                Some(f) => 0 <= f < entries@.len() && entries@[f].0@ == k@ && forall|j: int|
                    0 <= j < f ==> entries@[j].0@ != k@,
                None => forall|j: int| 0 <= j < entries@.len() ==> entries@[j].0@ != k@,
            },
        decreases entries@.len() - i,
    {
        if str_equal(entries[i].0.as_str(), k) {
            return Some(i);
        }
        i = i + 1;
    }
    None
}

} // verus!
