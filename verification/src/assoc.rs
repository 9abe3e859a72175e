//! Maps keyed by strings, kept as vectors of `(key, value)` entries.
//!
//! An entry list stands for the map obtained by inserting its entries in
//! order, so a later entry for a key overrides an earlier one.  The lists
//! this crate stores never hold a key twice.
use vstd::prelude::*;

verus! {

/// The map an entry list stands for: its entries inserted in order.
pub open spec fn assoc<V>(entries: Seq<(String, V)>) -> Map<Seq<char>, V>
    decreases entries.len(),
{
    if entries.len() == 0 {
        Map::empty()
    } else {
        assoc(entries.drop_last()).insert(entries.last().0@, entries.last().1)
    }
}

/// No key occurs twice in the entry list.
pub open spec fn distinct_keys<V>(entries: Seq<(String, V)>) -> bool {
    forall|i: int, j: int|
        0 <= i < entries.len() && 0 <= j < entries.len() && i != j ==> #[trigger] entries[i].0@
            != #[trigger] entries[j].0@
}

/// Whether some entry has key `key`.
pub open spec fn has_key<V>(entries: Seq<(String, V)>, key: Seq<char>) -> bool {
    exists|i: int| 0 <= i < entries.len() && #[trigger] entries[i].0@ == key
}

/// The sum of the values of an entry list, entry by entry.
pub open spec fn total(entries: Seq<(String, u128)>) -> int
    decreases entries.len(),
{
    if entries.len() == 0 {
        0
    } else {
        total(entries.drop_last()) + entries.last().1
    }
}

/// The sum of the values of a finite map.
pub open spec fn map_sum(m: Map<Seq<char>, u128>) -> int
    decreases m.dom().len(),
{
    if m.dom().finite() && m.dom().len() > 0 {
        let k = m.dom().choose();
        proof {
            vstd::set::axiom_set_choose_len(m.dom());
            vstd::set::axiom_set_remove_len(m.dom(), k);
        }
        m[k] + map_sum(m.remove(k))
    } else {
        0
    }
}

pub proof fn lemma_assoc_push<V>(entries: Seq<(String, V)>, entry: (String, V))
    ensures
        assoc(entries.push(entry)) == assoc(entries).insert(entry.0@, entry.1),
{
    assert(entries.push(entry).drop_last() =~= entries);
}

/// The keys of the map are exactly the keys of the entries, and there are
/// finitely many.
pub proof fn lemma_assoc_dom<V>(entries: Seq<(String, V)>)
    ensures
        assoc(entries).dom().finite(),
        forall|key: Seq<char>| #[trigger] assoc(entries).dom().contains(key) <==> has_key(entries, key),
    decreases entries.len(),
{
    if entries.len() > 0 {
        let prefix = entries.drop_last();
        lemma_assoc_dom(prefix);
        assert forall|key: Seq<char>| #[trigger] assoc(entries).dom().contains(key) <==> has_key(
            entries,
            key,
        ) by {
            if has_key(prefix, key) {
                let i = choose|i: int| 0 <= i < prefix.len() && #[trigger] prefix[i].0@ == key;
                assert(entries[i].0@ == key);
            }
            if has_key(entries, key) {
                let i = choose|i: int| 0 <= i < entries.len() && #[trigger] entries[i].0@ == key;
                if i < prefix.len() {
                    assert(prefix[i].0@ == key);
                }
            }
        }
    }
}

/// With distinct keys, the map holds each entry's value under its key.
pub proof fn lemma_assoc_at<V>(entries: Seq<(String, V)>, i: int)
    requires
        distinct_keys(entries),
        0 <= i < entries.len(),
    ensures
        assoc(entries).dom().contains(entries[i].0@),
        assoc(entries)[entries[i].0@] == entries[i].1,
    decreases entries.len(),
{
    let prefix = entries.drop_last();
    if i < entries.len() - 1 {
        assert(distinct_keys(prefix)) by {
            assert forall|a: int, b: int|
                0 <= a < prefix.len() && 0 <= b < prefix.len() && a != b implies #[trigger] prefix[a].0@
                    != #[trigger] prefix[b].0@ by {
                assert(prefix[a] == entries[a] && prefix[b] == entries[b]);
            }
        }
        lemma_assoc_at(prefix, i);
        assert(prefix[i] == entries[i]);
        assert(entries[i].0@ != entries[entries.len() - 1].0@);
    }
}

/// Replacing the value of an existing key is an insertion into the map, and
/// keeps the keys distinct.
pub proof fn lemma_assoc_update<V>(entries: Seq<(String, V)>, i: int, entry: (String, V))
    requires
        distinct_keys(entries),
        0 <= i < entries.len(),
        entries[i].0@ == entry.0@,
    ensures
        distinct_keys(entries.update(i, entry)),
        assoc(entries.update(i, entry)) == assoc(entries).insert(entry.0@, entry.1),
{
    let updated = entries.update(i, entry);
    assert(distinct_keys(updated)) by {
        assert forall|a: int, b: int|
            0 <= a < updated.len() && 0 <= b < updated.len() && a != b implies #[trigger] updated[a].0@
                != #[trigger] updated[b].0@ by {
            assert(updated[a].0@ == entries[a].0@);
            assert(updated[b].0@ == entries[b].0@);
        }
    }
    lemma_assoc_dom(entries);
    lemma_assoc_dom(updated);
    let lhs = assoc(updated);
    let rhs = assoc(entries).insert(entry.0@, entry.1);
    assert forall|key: Seq<char>| lhs.dom().contains(key) <==> rhs.dom().contains(key) by {
        if has_key(updated, key) {
            let j = choose|j: int| 0 <= j < updated.len() && #[trigger] updated[j].0@ == key;
            assert(entries[j].0@ == key);
        }
        if has_key(entries, key) {
            let j = choose|j: int| 0 <= j < entries.len() && #[trigger] entries[j].0@ == key;
            assert(updated[j].0@ == key);
        }
        if key == entry.0@ {
            assert(updated[i].0@ == key);
        }
    }
    assert forall|key: Seq<char>| lhs.dom().contains(key) implies lhs[key] == rhs[key] by {
        let j = choose|j: int| 0 <= j < updated.len() && #[trigger] updated[j].0@ == key;
        lemma_assoc_at(updated, j);
        if j != i {
            lemma_assoc_at(entries, j);
            assert(entries[j] == updated[j]);
        }
    }
    assert(lhs =~= rhs);
}

/// Removing a key takes its value out of the sum.
pub proof fn lemma_map_sum_remove(m: Map<Seq<char>, u128>, key: Seq<char>)
    requires
        m.dom().finite(),
        m.dom().contains(key),
    ensures
        map_sum(m) == m[key] + map_sum(m.remove(key)),
    decreases m.dom().len(),
{
    vstd::set::axiom_set_remove_len(m.dom(), key);
    vstd::set::axiom_set_contains_len(m.dom(), key);
    let c = m.dom().choose();
    vstd::set::axiom_set_choose_len(m.dom());
    if c != key {
        let without_c = m.remove(c);
        let without_key = m.remove(key);
        vstd::set::axiom_set_remove_len(m.dom(), c);
        vstd::set::axiom_set_remove_finite(m.dom(), c);
        vstd::set::axiom_set_remove_finite(m.dom(), key);
        lemma_map_sum_remove(without_c, key);
        lemma_map_sum_remove(without_key, c);
        assert(without_c.remove(key) =~= without_key.remove(c));
    }
}

/// With distinct keys, summing the entries sums the map.
pub proof fn lemma_total_is_map_sum(entries: Seq<(String, u128)>)
    requires
        distinct_keys(entries),
    ensures
        total(entries) == map_sum(assoc(entries)),
    decreases entries.len(),
{
    if entries.len() == 0 {
        assert(assoc(entries).dom() =~= Set::<Seq<char>>::empty());
    } else {
        let prefix = entries.drop_last();
        let last = entries.last();
        assert(distinct_keys(prefix)) by {
            assert forall|a: int, b: int|
                0 <= a < prefix.len() && 0 <= b < prefix.len() && a != b implies #[trigger] prefix[a].0@
                    != #[trigger] prefix[b].0@ by {
                assert(prefix[a] == entries[a] && prefix[b] == entries[b]);
            }
        }
        lemma_total_is_map_sum(prefix);
        lemma_assoc_dom(prefix);
        lemma_assoc_dom(entries);
        assert(!has_key(prefix, last.0@)) by {
            if has_key(prefix, last.0@) {
                let j = choose|j: int| 0 <= j < prefix.len() && #[trigger] prefix[j].0@ == last.0@;
                assert(entries[j].0@ == entries[entries.len() - 1].0@);
            }
        }
        let m = assoc(entries);
        lemma_map_sum_remove(m, last.0@);
        assert(m.remove(last.0@) =~= assoc(prefix));
    }
}

/// The sum of an entry list of non-negative values never falls below the sum
/// of one of its prefixes.
pub proof fn lemma_total_prefix(entries: Seq<(String, u128)>, n: int)
    requires
        0 <= n <= entries.len(),
    ensures
        0 <= total(entries.take(n)) <= total(entries),
    decreases entries.len() - n,
{
    if n < entries.len() {
        lemma_total_prefix(entries, n + 1);
        assert(entries.take(n + 1).drop_last() =~= entries.take(n));
        lemma_total_nonneg(entries.take(n));
    } else {
        assert(entries.take(n) =~= entries);
        lemma_total_nonneg(entries);
    }
}

pub proof fn lemma_total_nonneg(entries: Seq<(String, u128)>)
    ensures
        total(entries) >= 0,
    decreases entries.len(),
{
    if entries.len() > 0 {
        lemma_total_nonneg(entries.drop_last());
    }
}

/// The position of the entry with key `key`, if there is one.
pub fn find_key<V>(entries: &Vec<(String, V)>, key: &String) -> (pos: Option<usize>)
    ensures
        pos is None <==> !has_key(entries@, key@),
        pos matches Some(i) ==> i < entries@.len() && entries@[i as int].0@ == key@,
{
    let n = entries.len();
    let mut i: usize = 0;
    while i < n
        invariant
            n == entries@.len(),
            i <= n,
            forall|j: int| 0 <= j < i ==> entries@[j].0@ != key@,
        decreases n - i,
    {
        if entries[i].0 == *key {
            return Some(i);
        }
        i = i + 1;
    }
    proof {
        if has_key(entries@, key@) {
            let j = choose|j: int| 0 <= j < entries@.len() && #[trigger] entries@[j].0@ == key@;
        }
    }
    None
}

} // verus!
