//! Building the extensions of a response from a list of names and values.

use crate::json::{contains_key, insert_entry, object_entries, object_insert, Entries, Object};
use serde_json_bytes::Value;
use vstd::prelude::*;

verus! {

/// The list of names and values as mathematical data.
pub open spec fn pairs_view(pairs: Seq<(&str, Value)>) -> Entries {
    Seq::new(pairs.len(), |i: int| (pairs[i].0@, pairs[i].1))
}

/// The entries that result from giving each name its value, one pair after
/// the other.
pub open spec fn merge_pairs(pairs: Entries) -> Entries
    decreases pairs.len(),
{
    if pairs.len() == 0 {
        Seq::empty()
    } else {
        insert_entry(merge_pairs(pairs.drop_last()), pairs.last().0, pairs.last().1)
    }
}

/// Whether no two entries have the same key.
pub open spec fn keys_distinct(entries: Entries) -> bool {
    forall|a: int, b: int|
        0 <= a < b < entries.len() ==> (#[trigger] entries[a]).0 != (#[trigger] entries[b]).0
}

/// Whether `pairs[i]` is the first pair with the name `name`.
pub open spec fn is_first_occurrence(pairs: Entries, i: int, name: Seq<char>) -> bool {
    &&& 0 <= i < pairs.len()
    &&& pairs[i].0 == name
    &&& forall|k: int| 0 <= k < i ==> (#[trigger] pairs[k]).0 != name
}

/// Whether `pairs[j]` is the last pair with the name `name`.
pub open spec fn is_last_occurrence(pairs: Entries, j: int, name: Seq<char>) -> bool {
    &&& 0 <= j < pairs.len()
    &&& pairs[j].0 == name
    &&& forall|k: int| j < k < pairs.len() ==> (#[trigger] pairs[k]).0 != name
}

/// Whether `entry` has the value of the last pair with its name.
pub open spec fn has_last_value(pairs: Entries, entry: (Seq<char>, Value)) -> bool {
    exists|j: int| is_last_occurrence(pairs, j, entry.0) && pairs[j].1 == entry.1
}

/// Whether both names occur in `pairs`, `earlier` for the first time before
/// `later` does.
pub open spec fn first_occurs_before(pairs: Entries, earlier: Seq<char>, later: Seq<char>) -> bool {
    exists|i: int, j: int|
        i < j && is_first_occurrence(pairs, i, earlier) && is_first_occurrence(pairs, j, later)
}

/// Whether `entries` is the merge of `pairs`:
/// - no key occurs twice;
/// - the keys are the names that occur in `pairs`;
/// - each key has the value of the last pair with that name;
/// - the keys stand in the order in which they first occur in `pairs`.
pub open spec fn is_merge_of(entries: Entries, pairs: Entries) -> bool {
    &&& keys_distinct(entries)
    &&& forall|name: Seq<char>|
        #![trigger contains_key(entries, name)]
        #![trigger contains_key(pairs, name)]
        contains_key(entries, name) <==> contains_key(pairs, name)
    &&& forall|a: int| 0 <= a < entries.len() ==> has_last_value(pairs, #[trigger] entries[a])
    &&& forall|a: int, b: int|
        0 <= a < b < entries.len() ==> first_occurs_before(
            pairs,
            (#[trigger] entries[a]).0,
            (#[trigger] entries[b]).0,
        )
}

/// Makes an object of a list of names and values. A name that occurs more
/// than once keeps the place of its first occurrence and gets the value of
/// its last.
pub fn from_names_and_values(extensions: Vec<(&str, Value)>) -> (object: Object)
    ensures
        object_entries(object) == merge_pairs(pairs_view(extensions@)),
        is_merge_of(object_entries(object), pairs_view(extensions@)),
{
    let mut object = Object::default();
    let ghost pairs = pairs_view(extensions@);
    for pair in it: extensions.into_iter()
        invariant
            pairs == pairs_view(it.seq()),
            object_entries(object) == merge_pairs(pairs.take(it.index() as int)),
    {
        let (name, value) = pair;
        proof {
            let done = it.index() as int;
            assert(pairs.take(done + 1).drop_last() == pairs.take(done));
        }
        object_insert(&mut object, name, value);
    }
    proof {
        assert(pairs.take(pairs.len() as int) == pairs);
        lemma_merge_pairs_is_merge(pairs);
    }
    object
}

/// Merging gives each name that occurs one entry, in the order in which the
/// names first occur, with the value of the name's last occurrence.
pub proof fn lemma_merge_pairs_is_merge(pairs: Entries)
    ensures
        is_merge_of(merge_pairs(pairs), pairs),
    decreases pairs.len(),
{
    if pairs.len() > 0 {
        let merged = merge_pairs(pairs);
        let front = pairs.drop_last();
        let before = merge_pairs(front);
        let last = pairs.len() - 1;
        let name = pairs[last].0;
        lemma_merge_pairs_is_merge(front);
        assert forall|k: int| 0 <= k < last implies #[trigger] pairs[k] == front[k] by {}
        // The last pair changes no key of an entry that was there before,
        // and adds an entry only for a name that had none.
        assert forall|a: int| 0 <= a < before.len() implies (#[trigger] merged[a]).0
            == before[a].0 by {}
        assert(keys_distinct(merged));
        assert forall|key: Seq<char>|
            #![trigger contains_key(merged, key)]
            #![trigger contains_key(pairs, key)]
            contains_key(merged, key) <==> contains_key(pairs, key) by {
            lemma_merged_keys(pairs, key);
        }
        assert forall|a: int| 0 <= a < merged.len() implies has_last_value(
            pairs,
            #[trigger] merged[a],
        ) by {
            if merged[a].0 == name {
                assert(is_last_occurrence(pairs, last, name));
            } else {
                let j = choose|j: int|
                    is_last_occurrence(front, j, before[a].0) && front[j].1 == before[a].1;
                assert(is_last_occurrence(pairs, j, merged[a].0));
            }
        }
        assert forall|a: int, b: int| 0 <= a < b < merged.len() implies first_occurs_before(
            pairs,
            (#[trigger] merged[a]).0,
            (#[trigger] merged[b]).0,
        ) by {
            if b < before.len() {
                let (i, j) = choose|i: int, j: int|
                    i < j && is_first_occurrence(front, i, before[a].0) && is_first_occurrence(
                        front,
                        j,
                        before[b].0,
                    );
                lemma_first_occurrence_in_front(pairs, i, before[a].0);
                lemma_first_occurrence_in_front(pairs, j, before[b].0);
            } else {
                // The last entry is new: its name occurs in the last pair only.
                lemma_first_occurrence_exists(front, before[a].0);
                let i = choose|i: int| is_first_occurrence(front, i, before[a].0);
                lemma_first_occurrence_in_front(pairs, i, before[a].0);
                assert(i < last && is_first_occurrence(pairs, last, name));
            }
        }
    }
}

/// Only one list of entries is the merge of given pairs.
pub proof fn lemma_merge_is_unique(first: Entries, second: Entries, pairs: Entries)
    requires
        is_merge_of(first, pairs),
        is_merge_of(second, pairs),
    ensures
        first == second,
{
    lemma_merge_is_no_longer(first, second, pairs);
    lemma_merge_is_no_longer(second, first, pairs);
    assert forall|a: int| 0 <= a < first.len() implies first[a] == second[a] by {
        lemma_merges_agree_on_key(first, second, pairs, a);
        // A name has one last occurrence, so both entries have its value.
        let j = choose|j: int| is_last_occurrence(pairs, j, first[a].0) && pairs[j].1 == first[a].1;
        let k = choose|k: int|
            is_last_occurrence(pairs, k, second[a].0) && pairs[k].1 == second[a].1;
        assert(j == k);
    }
}

/// The keys of the merge of `pairs` are the keys of the merge of all pairs
/// but the last, and the name of the last pair.
proof fn lemma_merged_keys(pairs: Entries, key: Seq<char>)
    requires
        pairs.len() > 0,
        is_merge_of(merge_pairs(pairs.drop_last()), pairs.drop_last()),
    ensures
        contains_key(merge_pairs(pairs), key) <==> contains_key(pairs, key),
{
    let merged = merge_pairs(pairs);
    let front = pairs.drop_last();
    let before = merge_pairs(front);
    let last = pairs.len() - 1;
    let name = pairs[last].0;
    assert forall|a: int| 0 <= a < before.len() implies (#[trigger] merged[a]).0
        == before[a].0 by {}
    if contains_key(merged, key) {
        let a = choose|a: int| 0 <= a < merged.len() && (#[trigger] merged[a]).0 == key;
        if a < before.len() {
            assert(contains_key(before, key));
            let i = choose|i: int| 0 <= i < front.len() && (#[trigger] front[i]).0 == key;
            assert(pairs[i].0 == key);
        } else {
            assert(pairs[last].0 == key);
        }
    }
    if contains_key(pairs, key) {
        let i = choose|i: int| 0 <= i < pairs.len() && (#[trigger] pairs[i]).0 == key;
        if i < last {
            assert(front[i].0 == key);
            assert(contains_key(before, key));
        }
        if contains_key(before, key) {
            let a = choose|a: int| 0 <= a < before.len() && (#[trigger] before[a]).0 == key;
            assert(merged[a].0 == key);
        } else {
            assert(merged[before.len() as int].0 == key);
        }
    }
}

/// A name that occurs in `pairs` has a first occurrence there.
proof fn lemma_first_occurrence_exists(pairs: Entries, name: Seq<char>)
    requires
        contains_key(pairs, name),
    ensures
        exists|i: int| is_first_occurrence(pairs, i, name),
    decreases pairs.len(),
{
    let front = pairs.drop_last();
    if contains_key(front, name) {
        lemma_first_occurrence_exists(front, name);
        let i = choose|i: int| is_first_occurrence(front, i, name);
        lemma_first_occurrence_in_front(pairs, i, name);
    } else {
        let last = pairs.len() - 1;
        assert forall|k: int| 0 <= k < last implies (#[trigger] pairs[k]).0 != name by {
            assert(pairs[k] == front[k]);
        }
        assert(is_first_occurrence(pairs, last, name));
    }
}

/// A first occurrence among all pairs but the last is one among all pairs.
proof fn lemma_first_occurrence_in_front(pairs: Entries, i: int, name: Seq<char>)
    requires
        pairs.len() > 0,
        is_first_occurrence(pairs.drop_last(), i, name),
    ensures
        is_first_occurrence(pairs, i, name),
{
    let front = pairs.drop_last();
    assert forall|k: int| 0 <= k < i implies (#[trigger] pairs[k]).0 != name by {
        assert(pairs[k] == front[k]);
    }
}

/// Two merges of the same pairs have the same key at every position that
/// both have.
proof fn lemma_merges_agree_on_key(first: Entries, second: Entries, pairs: Entries, a: int)
    requires
        is_merge_of(first, pairs),
        is_merge_of(second, pairs),
        0 <= a < first.len(),
        a < second.len(),
    ensures
        first[a].0 == second[a].0,
    decreases a,
{
    let key = first[a].0;
    let other = second[a].0;
    // Each of the two keys stands somewhere in the other merge.
    assert(contains_key(first, key) && contains_key(second, key));
    assert(contains_key(second, other) && contains_key(first, other));
    let b = choose|b: int| 0 <= b < second.len() && (#[trigger] second[b]).0 == key;
    let c = choose|c: int| 0 <= c < first.len() && (#[trigger] first[c]).0 == other;
    if b < a {
        // Then `first` has `key` at `b` too, and so twice.
        lemma_merges_agree_on_key(first, second, pairs, b);
    } else if c < a {
        // Then `second` has `other` at `c` too, and so twice.
        lemma_merges_agree_on_key(first, second, pairs, c);
    } else if b > a && c > a {
        // Then `other` first occurs before `key` and `key` before `other`.
        assert(first_occurs_before(pairs, other, key));
        assert(first_occurs_before(pairs, key, other));
        assert(false);
    }
}

/// A merge is not longer than another merge of the same pairs.
proof fn lemma_merge_is_no_longer(longer: Entries, shorter: Entries, pairs: Entries)
    requires
        is_merge_of(longer, pairs),
        is_merge_of(shorter, pairs),
    ensures
        longer.len() <= shorter.len(),
{
    if longer.len() > shorter.len() {
        // The key after the common part stands in the shorter merge, so the
        // longer merge has it twice.
        let key = longer[shorter.len() as int].0;
        assert(contains_key(longer, key) && contains_key(shorter, key));
        let b = choose|b: int| 0 <= b < shorter.len() && (#[trigger] shorter[b]).0 == key;
        lemma_merges_agree_on_key(longer, shorter, pairs, b);
    }
}

} // verus!
