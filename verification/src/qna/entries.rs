//! Entries under text keys, kept in the order in which their keys first came,
//! with no key twice: what a mapping from keys to values holds.

use vstd::prelude::*;

verus! {

/// Whether some entry stands under the key.
pub open spec fn has_key<V>(entries: Seq<(Seq<char>, V)>, key: Seq<char>) -> bool {
    exists|i: int| 0 <= i < entries.len() && (#[trigger] entries[i]).0 == key
}

/// Whether no two entries stand under one key.
pub open spec fn distinct_keys<V>(entries: Seq<(Seq<char>, V)>) -> bool {
    forall|i: int, j: int|
        0 <= i < entries.len() && 0 <= j < entries.len() && (#[trigger] entries[i]).0 == (
        #[trigger] entries[j]).0 ==> i == j
}

/// The place of the first entry under the key; the number of entries where
/// there is none.
pub open spec fn position<V>(entries: Seq<(Seq<char>, V)>, key: Seq<char>) -> int
    decreases entries.len(),
{
    if entries.len() == 0 {
        0
    } else if entries[0].0 == key {
        0
    } else {
        1 + position(entries.drop_first(), key)
    }
}

/// The entries after a value is put under a key: it takes the place of the
/// value that stood under that key, or comes last where there was none.
pub open spec fn upsert<V>(entries: Seq<(Seq<char>, V)>, key: Seq<char>, value: V) -> Seq<
    (Seq<char>, V),
> {
    if has_key(entries, key) {
        entries.update(position(entries, key), (key, value))
    } else {
        entries.push((key, value))
    }
}

/// The entries after each pair, in turn, is put under its key.
pub open spec fn collect<V>(pairs: Seq<(Seq<char>, V)>) -> Seq<(Seq<char>, V)>
    decreases pairs.len(),
{
    if pairs.len() == 0 {
        Seq::empty()
    } else {
        upsert(collect(pairs.drop_last()), pairs.last().0, pairs.last().1)
    }
}

/// Executable entries as keys and values by their views.
pub open spec fn keyed<T: View>(entries: Seq<(String, T)>) -> Seq<(Seq<char>, T::V)> {
    Seq::new(entries.len(), |i: int| (entries[i].0@, entries[i].1@))
}

/// `position` is the first place under the key, and within the entries
/// exactly where the key is there.
pub proof fn lemma_position<V>(entries: Seq<(Seq<char>, V)>, key: Seq<char>)
    ensures
        0 <= position(entries, key) <= entries.len(),
        has_key(entries, key) <==> position(entries, key) < entries.len(),
        position(entries, key) < entries.len() ==> entries[position(entries, key)].0 == key,
        forall|j: int| 0 <= j < position(entries, key) ==> (#[trigger] entries[j]).0 != key,
    decreases entries.len(),
{
    if entries.len() == 0 {
    } else if entries[0].0 == key {
    } else {
        let rest = entries.drop_first();
        lemma_position(rest, key);
        let p = position(rest, key);
        assert forall|j: int| 0 <= j < 1 + p implies (#[trigger] entries[j]).0 != key by {
            if j > 0 {
                assert(rest[j - 1] == entries[j]);
            }
        }
        if p < rest.len() {
            assert(rest[p] == entries[p + 1]);
        }
        if has_key(entries, key) {
            let i = choose|i: int| 0 <= i < entries.len() && (#[trigger] entries[i]).0 == key;
            assert(rest[i - 1] == entries[i]);
        }
    }
}

/// A place where the key stands with no such place before it is `position`.
pub proof fn lemma_position_is_first<V>(entries: Seq<(Seq<char>, V)>, key: Seq<char>, i: int)
    requires
        0 <= i < entries.len(),
        entries[i].0 == key,
        forall|j: int| 0 <= j < i ==> (#[trigger] entries[j]).0 != key,
    ensures
        position(entries, key) == i,
        has_key(entries, key),
{
    lemma_position(entries, key);
}

/// Putting a value under a key leaves no key twice, keeps every other key
/// with its value, and leaves the value under the key.
pub proof fn lemma_upsert<V>(entries: Seq<(Seq<char>, V)>, key: Seq<char>, value: V)
    requires
        distinct_keys(entries),
    ensures
        distinct_keys(upsert(entries, key, value)),
        has_key(upsert(entries, key, value), key),
        upsert(entries, key, value)[position(upsert(entries, key, value), key)] == (key, value),
        forall|other: Seq<char>|
            other != key ==> (has_key(upsert(entries, key, value), other) <==> has_key(
                entries,
                other,
            )),
        forall|other: Seq<char>|
            other != key && has_key(entries, other) ==> upsert(entries, key, value)[position(
                upsert(entries, key, value),
                other,
            )] == entries[position(entries, other)],
{
    let after = upsert(entries, key, value);
    lemma_position(entries, key);
    let p = position(entries, key);
    if has_key(entries, key) {
        assert(after.len() == entries.len());
        assert forall|i: int| 0 <= i < after.len() implies (#[trigger] after[i]).0
            == entries[i].0 by {}
    } else {
        assert forall|i: int| 0 <= i < entries.len() implies (#[trigger] after[i])
            == entries[i] by {}
        assert(after[entries.len() as int] == (key, value));
    }
    assert(after[p] == (key, value));
    assert(distinct_keys(after)) by {
        assert forall|i: int, j: int|
            0 <= i < after.len() && 0 <= j < after.len() && (#[trigger] after[i]).0 == (
            #[trigger] after[j]).0 implies i == j by {
            if has_key(entries, key) {
                assert(entries[i].0 == entries[j].0);
            } else {
                if i < entries.len() && j < entries.len() {
                    assert(entries[i].0 == entries[j].0);
                } else if i < entries.len() {
                    assert(entries[i].0 == key);
                } else if j < entries.len() {
                    assert(entries[j].0 == key);
                }
            }
        }
    }
    lemma_position(after, key);
    assert(has_key(after, key));
    assert(position(after, key) == p) by {
        let q = position(after, key);
        assert(after[q].0 == after[p].0);
    }
    assert forall|other: Seq<char>| other != key implies (has_key(after, other) <==> has_key(
        entries,
        other,
    )) by {
        if has_key(after, other) {
            let i = choose|i: int| 0 <= i < after.len() && (#[trigger] after[i]).0 == other;
            assert(entries[i].0 == other);
        }
        if has_key(entries, other) {
            let i = choose|i: int| 0 <= i < entries.len() && (#[trigger] entries[i]).0 == other;
            assert(after[i].0 == other);
        }
    }
    assert forall|other: Seq<char>| other != key && has_key(entries, other) implies after[position(
        after,
        other,
    )] == entries[position(entries, other)] by {
        lemma_position(entries, other);
        lemma_position(after, other);
        let a = position(entries, other);
        let b = position(after, other);
        assert(after[a].0 == other);
        assert(has_key(after, other));
        assert(after[a].0 == after[b].0);
    }
}

/// Collecting pairs leaves no key twice.
pub proof fn lemma_collect_distinct<V>(pairs: Seq<(Seq<char>, V)>)
    ensures
        distinct_keys(collect(pairs)),
    decreases pairs.len(),
{
    if pairs.len() > 0 {
        lemma_collect_distinct(pairs.drop_last());
        lemma_upsert(collect(pairs.drop_last()), pairs.last().0, pairs.last().1);
    }
}

/// The keys of what was collected are the keys of the pairs.
pub proof fn lemma_collect_keys<V>(pairs: Seq<(Seq<char>, V)>, key: Seq<char>)
    ensures
        has_key(collect(pairs), key) <==> has_key(pairs, key),
    decreases pairs.len(),
{
    if pairs.len() > 0 {
        let front = pairs.drop_last();
        lemma_collect_distinct(front);
        lemma_collect_keys(front, key);
        lemma_upsert(collect(front), pairs.last().0, pairs.last().1);
        if has_key(front, key) {
            let i = choose|i: int| 0 <= i < front.len() && (#[trigger] front[i]).0 == key;
            assert(pairs[i].0 == key);
        }
        if has_key(pairs, key) && key != pairs.last().0 {
            let i = choose|i: int| 0 <= i < pairs.len() && (#[trigger] pairs[i]).0 == key;
            assert(front[i].0 == key);
        }
        if key == pairs.last().0 {
            assert(pairs[pairs.len() - 1].0 == key);
        }
    } else {
        assert(!has_key(collect(pairs), key));
    }
}

/// What was collected holds no key twice, and its keys are the keys of the
/// pairs: each pair's key has an entry, and each entry the key of a pair.
pub proof fn lemma_collect_one_entry_per_key<V>(pairs: Seq<(Seq<char>, V)>)
    ensures
        distinct_keys(collect(pairs)),
        forall|i: int| 0 <= i < pairs.len() ==> has_key(collect(pairs), (#[trigger] pairs[i]).0),
        forall|k: int|
            0 <= k < collect(pairs).len() ==> has_key(pairs, (#[trigger] collect(pairs)[k]).0),
{
    let entries = collect(pairs);
    lemma_collect_distinct(pairs);
    assert forall|i: int| 0 <= i < pairs.len() implies has_key(
        entries,
        (#[trigger] pairs[i]).0,
    ) by {
        lemma_collect_keys(pairs, pairs[i].0);
    }
    assert forall|k: int| 0 <= k < entries.len() implies has_key(
        pairs,
        (#[trigger] entries[k]).0,
    ) by {
        lemma_collect_keys(pairs, entries[k].0);
    }
}

/// Under each key stands the value of the last pair with that key.
pub proof fn lemma_collect_last_wins<V>(pairs: Seq<(Seq<char>, V)>, i: int)
    requires
        0 <= i < pairs.len(),
        forall|j: int| i < j < pairs.len() ==> (#[trigger] pairs[j]).0 != pairs[i].0,
    ensures
        has_key(collect(pairs), pairs[i].0),
        collect(pairs)[position(collect(pairs), pairs[i].0)] == pairs[i],
    decreases pairs.len(),
{
    let front = pairs.drop_last();
    lemma_collect_distinct(front);
    lemma_upsert(collect(front), pairs.last().0, pairs.last().1);
    if i < pairs.len() - 1 {
        assert(front[i] == pairs[i]);
        assert(pairs[pairs.len() - 1].0 != pairs[i].0);
        assert forall|j: int| i < j < front.len() implies (#[trigger] front[j]).0
            != front[i].0 by {
            assert(front[j] == pairs[j]);
        }
        lemma_collect_last_wins(front, i);
    }
}

/// Pairs with no key twice are collected as they stand.
pub proof fn lemma_collect_of_distinct<V>(pairs: Seq<(Seq<char>, V)>)
    requires
        distinct_keys(pairs),
    ensures
        collect(pairs) == pairs,
    decreases pairs.len(),
{
    if pairs.len() > 0 {
        let front = pairs.drop_last();
        assert(distinct_keys(front)) by {
            assert forall|i: int, j: int|
                0 <= i < front.len() && 0 <= j < front.len() && (#[trigger] front[i]).0 == (
                #[trigger] front[j]).0 implies i == j by {
                assert(pairs[i].0 == pairs[j].0);
            }
        }
        lemma_collect_of_distinct(front);
        if has_key(front, pairs.last().0) {
            let i = choose|i: int|
                0 <= i < front.len() && (#[trigger] front[i]).0 == pairs.last().0;
            assert(pairs[i].0 == pairs[pairs.len() - 1].0);
        }
        assert(front.push(pairs.last()) == pairs);
    }
}

/// Puts a value under a key.
pub fn put<T: View>(entries: &mut Vec<(String, T)>, key: String, value: T)
    ensures
        keyed(final(entries)@) == upsert(keyed(old(entries)@), key@, value@),
{
    let ghost before = keyed(entries@);
    let mut i: usize = 0;
    while i < entries.len()
        invariant
            i <= entries@.len(),
            entries@ == old(entries)@,
            before == keyed(entries@),
            forall|j: int| 0 <= j < i ==> (#[trigger] before[j]).0 != key@,
        decreases entries@.len() - i,
    {
        if entries[i].0 == key {
            proof {
                lemma_position_is_first(before, key@, i as int);
            }
            entries.set(i, (key, value));
            assert(keyed(entries@) =~= upsert(before, key@, value@));
            return ;
        }
        i = i + 1;
    }
    proof {
        lemma_position(before, key@);
        assert(!has_key(before, key@));
    }
    entries.push((key, value));
    assert(keyed(entries@) =~= upsert(before, key@, value@));
}

} // verus!
