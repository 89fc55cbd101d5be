//! Sums of amounts that are kept by key.

use std::collections::BTreeMap;
use vstd::prelude::*;

verus! {

/// The amount that `map` holds under `key`: nothing where it has no entry.
pub open spec fn amount_under(map: Map<u64, u64>, key: u64) -> u64 {
    if map.contains_key(key) {
        map[key]
    } else {
        0
    }
}

/// The map that holds, under every key of `a` or of `b`, the sum of what
/// the two hold under it.
pub open spec fn sum_of_maps(a: Map<u64, u64>, b: Map<u64, u64>) -> Map<u64, u64> {
    Map::new(
        |key: u64| a.contains_key(key) || b.contains_key(key),
        |key: u64| (amount_under(a, key) + amount_under(b, key)) as u64,
    )
}

/// Whether `key` is among the first `count` of `entries`.
spec fn seen(entries: Seq<(&u64, &u64)>, count: int, key: u64) -> bool {
    exists|i: int| 0 <= i < count && *(#[trigger] entries[i]).0 == key
}

/// The keys of the maps are ordered as `BTreeMap` needs them to be.
proof fn lemma_keys_are_ordered()
    ensures
        vstd::laws_cmp::obeys_cmp::<u64>(),
{
    broadcast use vstd::laws_cmp::group_laws_cmp;

}

/// Adds the amounts of `m2` to those of `m1`, key by key. No sum may go
/// beyond 64 bits.
pub fn add_btreemap(m1: &mut BTreeMap<u64, u64>, m2: BTreeMap<u64, u64>)
    requires
        forall|key: u64|
            old(m1)@.contains_key(key) && m2@.contains_key(key) ==> old(m1)@[key] + m2@[key]
                <= u64::MAX,
    ensures
        final(m1)@ == sum_of_maps(old(m1)@, m2@),
{
    broadcast use vstd::std_specs::btree::group_btree_axioms;

    proof {
        lemma_keys_are_ordered();
    }

    let ghost before = m1@;
    for entry in iter: m2.iter()
        invariant
            before == old(m1)@,
            forall|key: u64|
                before.contains_key(key) && m2@.contains_key(key) ==> before[key] + m2@[key]
                    <= u64::MAX,
            iter.seq().no_duplicates(),
            iter.seq().len() == m2@.dom().len(),
            forall|i: int|
                0 <= i < iter.seq().len() ==> m2@.contains_key(*(#[trigger] iter.seq()[i]).0)
                    && m2@[*iter.seq()[i].0] == *iter.seq()[i].1,
            forall|key: u64| #[trigger]
                m2@.contains_key(key) ==> seen(iter.seq(), iter.seq().len() as int, key),
            forall|key: u64|
                m1@.contains_key(key) <==> before.contains_key(key) || seen(
                    iter.seq(),
                    iter.index() as int,
                    key,
                ),
            forall|key: u64| #[trigger]
                m1@.contains_key(key) ==> m1@[key] == if seen(
                    iter.seq(),
                    iter.index() as int,
                    key,
                ) {
                    (amount_under(before, key) + m2@[key]) as u64
                } else {
                    before[key]
                },
            iter.index() == iter.seq().len() ==> m1@ =~= sum_of_maps(before, m2@),
    {
        let key: u64 = *entry.0;
        let value: u64 = *entry.1;
        let ghost n = iter.index() as int;
        assert(!seen(iter.seq(), n, key)) by {
            assert(iter.seq()[n] == entry);
            if seen(iter.seq(), n, key) {
                let i = choose|i: int| 0 <= i < n && *(#[trigger] iter.seq()[i]).0 == key;
                assert(*iter.seq()[i].1 == m2@[key]);
                assert(iter.seq()[i] == iter.seq()[n]);
            }
        }
        proof {
            lemma_keys_are_ordered();
        }
        assert(m2@.contains_key(key) && m2@[key] == value);
        let ghost held_before = m1@;
        let sum: u64 = match m1.get(&key) {
            Some(held) => {
                assert(m1@.contains_key(key) && m1@[key] == *held);
                assert(before.contains_key(key) && before[key] == *held);
                *held + value
            },
            None => {
                assert(!m1@.contains_key(key));
                value
            },
        };
        m1.insert(key, sum);
        assert(m1@ == held_before.insert(key, sum));
        assert(*iter.seq()[n].0 == key);
        assert forall|k: u64| seen(iter.seq(), n + 1, k) <==> (k == key || seen(iter.seq(), n, k)) by {
            if seen(iter.seq(), n + 1, k) {
                let i = choose|i: int| 0 <= i < n + 1 && *(#[trigger] iter.seq()[i]).0 == k;
                if i < n {
                    assert(*iter.seq()[i].0 == k);
                }
            }
            if seen(iter.seq(), n, k) {
                let i = choose|i: int| 0 <= i < n && *(#[trigger] iter.seq()[i]).0 == k;
                assert(*iter.seq()[i].0 == k);
            }
        }
        assert forall|k: u64| #[trigger]
            m1@.contains_key(k) <==> before.contains_key(k) || seen(iter.seq(), n + 1, k) by {
            assert(held_before.contains_key(k) <==> before.contains_key(k) || seen(
                iter.seq(),
                n,
                k,
            ));
        }
        assert forall|k: u64| #[trigger] m1@.contains_key(k) implies m1@[k] == if seen(
            iter.seq(),
            n + 1,
            k,
        ) {
            (amount_under(before, k) + m2@[k]) as u64
        } else {
            before[k]
        } by {
            if k != key {
                assert(held_before.contains_key(k));
            }
        }
        assert(n + 1 == iter.seq().len() ==> m1@ =~= sum_of_maps(before, m2@)) by {
            if n + 1 == iter.seq().len() {
                let wanted = sum_of_maps(before, m2@);
                assert forall|k: u64| m1@.contains_key(k) <==> wanted.contains_key(k) by {
                    if seen(iter.seq(), n + 1, k) {
                        let i = choose|i: int| 0 <= i < n + 1 && *(#[trigger] iter.seq()[i]).0 == k;
                        assert(m2@.contains_key(*iter.seq()[i].0));
                    }
                }
                assert forall|k: u64| m1@.contains_key(k) implies m1@[k] == wanted[k] by {
                    if seen(iter.seq(), n + 1, k) {
                        let i = choose|i: int| 0 <= i < n + 1 && *(#[trigger] iter.seq()[i]).0 == k;
                        assert(m2@.contains_key(*iter.seq()[i].0));
                    }
                }
                assert(m1@ =~= wanted);
            }
        }
    }
}

} // verus!
