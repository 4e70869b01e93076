//! A list of keyed entries, read as a map.
//!
//! The in-memory store keeps its accounts and its recipient keys as lists in
//! which no key occurs twice. The lemmas here say what pushing and removing an
//! entry of such a list does to the map it stands for.

use vstd::prelude::*;

verus! {

/// No key occurs twice.
pub open spec fn distinct_keys<V>(entries: Seq<(Seq<char>, V)>) -> bool {
    forall|i: int, j: int|
        0 <= i < j < entries.len() ==> (#[trigger] entries[i]).0 != (#[trigger] entries[j]).0
}

/// Some entry has the key.
pub open spec fn has_key<V>(entries: Seq<(Seq<char>, V)>, key: Seq<char>) -> bool {
    exists|i: int| 0 <= i < entries.len() && (#[trigger] entries[i]).0 == key
}

/// Where the key stands, if some entry has it.
pub open spec fn index_of_key<V>(entries: Seq<(Seq<char>, V)>, key: Seq<char>) -> int {
    choose|i: int| 0 <= i < entries.len() && (#[trigger] entries[i]).0 == key
}

/// The map from each key to the value of its entry.
pub open spec fn table<V>(entries: Seq<(Seq<char>, V)>) -> Map<Seq<char>, V> {
    Map::new(
        |key: Seq<char>| has_key(entries, key),
        |key: Seq<char>| entries[index_of_key(entries, key)].1,
    )
}

/// The map holds each entry under its key.
pub proof fn lemma_table_at<V>(entries: Seq<(Seq<char>, V)>, i: int)
    requires
        distinct_keys(entries),
        0 <= i < entries.len(),
    ensures
        has_key(entries, entries[i].0),
        table(entries).dom().contains(entries[i].0),
        table(entries)[entries[i].0] == entries[i].1,
{
    let key = entries[i].0;
    assert(has_key(entries, key));
    let found = index_of_key(entries, key);
    assert(0 <= found < entries.len() && entries[found].0 == key);
    if found < i {
        assert(entries[found].0 != entries[i].0);
    } else if i < found {
        assert(entries[i].0 != entries[found].0);
    }
}

/// Pushing an entry with a new key inserts it into the map.
pub proof fn lemma_table_push<V>(entries: Seq<(Seq<char>, V)>, key: Seq<char>, value: V)
    requires
        distinct_keys(entries),
        !has_key(entries, key),
    ensures
        distinct_keys(entries.push((key, value))),
        table(entries.push((key, value))) == table(entries).insert(key, value),
{
    let longer = entries.push((key, value));
    assert forall|i: int, j: int| 0 <= i < j < longer.len() implies (#[trigger] longer[i]).0 != (
    #[trigger] longer[j]).0 by {
        if j < entries.len() {
            assert(entries[i].0 != entries[j].0);
        } else {
            assert(longer[i] == entries[i]);
        }
    }
    assert forall|other: Seq<char>| has_key(longer, other) <==> (other == key || has_key(
        entries,
        other,
    )) by {
        if has_key(longer, other) {
            let i = index_of_key(longer, other);
            if i < entries.len() {
                assert(entries[i].0 == other);
            }
        }
        if other == key {
            assert(longer[entries.len() as int].0 == key);
        }
        if has_key(entries, other) {
            let i = index_of_key(entries, other);
            assert(longer[i].0 == other);
        }
    }
    assert forall|other: Seq<char>| has_key(longer, other) implies #[trigger] table(longer)[other]
        == table(entries).insert(key, value)[other] by {
        let i = index_of_key(longer, other);
        lemma_table_at(longer, i);
        if i < entries.len() {
            assert(longer[i] == entries[i]);
            lemma_table_at(entries, i);
        }
    }
    assert(table(longer) =~= table(entries).insert(key, value));
}

/// Removing an entry removes its key from the map.
pub proof fn lemma_table_remove<V>(entries: Seq<(Seq<char>, V)>, i: int)
    requires
        distinct_keys(entries),
        0 <= i < entries.len(),
    ensures
        distinct_keys(entries.remove(i)),
        table(entries.remove(i)) == table(entries).remove(entries[i].0),
{
    let key = entries[i].0;
    let shorter = entries.remove(i);
    assert forall|a: int, b: int| 0 <= a < b < shorter.len() implies (#[trigger] shorter[a]).0 != (
    #[trigger] shorter[b]).0 by {
        let from_a = if a < i {
            a
        } else {
            a + 1
        };
        let from_b = if b < i {
            b
        } else {
            b + 1
        };
        assert(shorter[a] == entries[from_a]);
        assert(shorter[b] == entries[from_b]);
        assert(entries[from_a].0 != entries[from_b].0);
    }
    assert forall|other: Seq<char>| has_key(shorter, other) <==> (other != key && has_key(
        entries,
        other,
    )) by {
        if has_key(shorter, other) {
            let a = index_of_key(shorter, other);
            let from = if a < i {
                a
            } else {
                a + 1
            };
            assert(shorter[a] == entries[from]);
            assert(entries[from].0 == other);
            if from < i {
                assert(entries[from].0 != entries[i].0);
            } else {
                assert(entries[i].0 != entries[from].0);
            }
        }
        if other != key && has_key(entries, other) {
            let from = index_of_key(entries, other);
            let a = if from < i {
                from
            } else {
                from - 1
            };
            assert(shorter[a] == entries[from]);
        }
    }
    assert forall|other: Seq<char>| has_key(shorter, other) implies #[trigger] table(
        shorter,
    )[other] == table(entries)[other] by {
        let a = index_of_key(shorter, other);
        let from = if a < i {
            a
        } else {
            a + 1
        };
        assert(shorter[a] == entries[from]);
        lemma_table_at(shorter, a);
        lemma_table_at(entries, from);
    }
    assert(table(shorter) =~= table(entries).remove(key));
}

} // verus!
