//! Lists of values by key in which no key occurs twice, and the maps that
//! they stand for. The secret's data and a user's metadata are such lists.

use vstd::prelude::*;

verus! {

/// Whether no key occurs twice in `pairs`.
pub open spec fn distinct_keys<V>(pairs: Seq<(Seq<char>, V)>) -> bool {
    forall|i: int, j: int|
        0 <= i < j < pairs.len() ==> (#[trigger] pairs[i]).0 != (#[trigger] pairs[j]).0
}

/// The map that a list of pairs with distinct keys stands for.
pub open spec fn pairs_map<V>(pairs: Seq<(Seq<char>, V)>) -> Map<Seq<char>, V> {
    Map::new(
        |k: Seq<char>| exists|i: int| 0 <= i < pairs.len() && (#[trigger] pairs[i]).0 == k,
        |k: Seq<char>| pairs[choose|i: int| 0 <= i < pairs.len() && (#[trigger] pairs[i]).0 == k].1,
    )
}

/// The map that comes of putting each of `pairs` in turn into an empty map:
/// where a key occurs more than once, its last value stays.
pub open spec fn folded<V>(pairs: Seq<(Seq<char>, V)>) -> Map<Seq<char>, V>
    decreases pairs.len(),
{
    if pairs.len() == 0 {
        Map::empty()
    } else {
        folded(pairs.drop_last()).insert(pairs.last().0, pairs.last().1)
    }
}

/// In a list with distinct keys, the pair at `i` is what the map holds under
/// that pair's key.
pub proof fn pair_is_mapped<V>(pairs: Seq<(Seq<char>, V)>, i: int)
    requires
        distinct_keys(pairs),
        0 <= i < pairs.len(),
    ensures
        pairs_map(pairs).contains_key(pairs[i].0),
        pairs_map(pairs)[pairs[i].0] == pairs[i].1,
{
    let k = pairs[i].0;
    let j = choose|j: int| 0 <= j < pairs.len() && (#[trigger] pairs[j]).0 == k;
    assert(j == i);
}

/// A key that stands nowhere in the list is no key of the map.
pub proof fn absent_is_unmapped<V>(pairs: Seq<(Seq<char>, V)>, key: Seq<char>)
    requires
        forall|j: int| 0 <= j < pairs.len() ==> (#[trigger] pairs[j]).0 != key,
    ensures
        !pairs_map(pairs).contains_key(key),
{
}

/// Putting a pair in the place of the pair with its key, or at the end where
/// no pair has its key, keeps the keys distinct and is an insert on the map.
pub proof fn put_is_insert<V>(
    before: Seq<(Seq<char>, V)>,
    after: Seq<(Seq<char>, V)>,
    at: int,
    key: Seq<char>,
    value: V,
)
    requires
        distinct_keys(before),
        0 <= at <= before.len(),
        at < before.len() ==> before[at].0 == key && after.len() == before.len(),
        at == before.len() ==> after.len() == before.len() + 1,
        after[at] == (key, value),
        forall|j: int| 0 <= j < before.len() && j != at ==> #[trigger] after[j] == before[j],
        forall|j: int| 0 <= j < before.len() && j != at ==> (#[trigger] before[j]).0 != key,
    ensures
        distinct_keys(after),
        pairs_map(after) == pairs_map(before).insert(key, value),
{
    assert forall|a: int, b: int| 0 <= a < b < after.len() implies (#[trigger] after[a]).0 != (
    #[trigger] after[b]).0 by {
        if a != at && b != at {
            assert(after[a] == before[a] && after[b] == before[b]);
            assert(before[a].0 != before[b].0);
        } else if a == at {
            assert(after[b] == before[b]);
        } else {
            assert(after[a] == before[a]);
        }
    }
    assert forall|q: Seq<char>|
        pairs_map(after).contains_key(q) == pairs_map(before).insert(key, value).contains_key(
            q,
        ) by {
        if pairs_map(after).contains_key(q) {
            let j = choose|j: int| 0 <= j < after.len() && (#[trigger] after[j]).0 == q;
            if j != at {
                assert(after[j] == before[j]);
                assert(before[j].0 == q);
            }
        }
        if pairs_map(before).contains_key(q) && q != key {
            let j = choose|j: int| 0 <= j < before.len() && (#[trigger] before[j]).0 == q;
            assert(after[j] == before[j]);
            assert(after[j].0 == q);
        }
        if q == key {
            assert(after[at].0 == q);
        }
    }
    assert forall|q: Seq<char>| pairs_map(after).contains_key(q) implies pairs_map(after)[q]
        == pairs_map(before).insert(key, value)[q] by {
        let j = choose|j: int| 0 <= j < after.len() && (#[trigger] after[j]).0 == q;
        pair_is_mapped(after, j);
        if j != at {
            assert(after[j] == before[j]);
            assert(before[j].0 == q);
            pair_is_mapped(before, j);
        }
    }
    assert(pairs_map(after) =~= pairs_map(before).insert(key, value));
}

/// A list with distinct keys stands for a map with as many keys.
pub proof fn count_pairs<V>(pairs: Seq<(Seq<char>, V)>)
    requires
        distinct_keys(pairs),
    ensures
        pairs_map(pairs).dom().finite(),
        pairs_map(pairs).len() == pairs.len(),
    decreases pairs.len(),
{
    if pairs.len() == 0 {
        assert(pairs_map(pairs).dom() =~= Set::<Seq<char>>::empty());
    } else {
        let rest = pairs.drop_last();
        let last = pairs.last();
        assert forall|i: int, j: int| 0 <= i < j < rest.len() implies (#[trigger] rest[i]).0 != (
        #[trigger] rest[j]).0 by {
            assert(pairs[i].0 != pairs[j].0);
        }
        count_pairs(rest);
        assert forall|j: int| 0 <= j < rest.len() implies (#[trigger] rest[j]).0 != last.0 by {
            assert(pairs[j].0 != pairs[pairs.len() - 1].0);
        }
        assert forall|j: int| 0 <= j < rest.len() implies #[trigger] pairs[j] == rest[j] by {}
        put_is_insert(rest, pairs, rest.len() as int, last.0, last.1);
        absent_is_unmapped(rest, last.0);
        assert(pairs_map(pairs).dom() =~= pairs_map(rest).dom().insert(last.0));
    }
}

} // verus!
