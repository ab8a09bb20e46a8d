//! Association lists with unique keys, and the finite map each one
//! denotes.  The correlation table and the window registry both keep a
//! `Vec` of key/value pairs and state their contracts over this map.

use vstd::prelude::*;

verus! {

pub(crate) open spec fn spec_keys_unique<K, V>(entries: Seq<(K, V)>) -> bool {
    forall|i: int, j: int|
        0 <= i < j < entries.len() ==> (#[trigger] entries[i]).0 != (#[trigger] entries[j]).0
}

pub(crate) open spec fn spec_map_of<K, V>(entries: Seq<(K, V)>) -> Map<K, V> {
    Map::new(
        |id: K| exists|i: int| 0 <= i < entries.len() && (#[trigger] entries[i]).0 == id,
        |id: K| entries[choose|i: int| 0 <= i < entries.len() && (#[trigger] entries[i]).0 == id].1,
    )
}

pub(crate) proof fn lemma_map_of_len<K, V>(entries: Seq<(K, V)>)
    requires
        spec_keys_unique(entries),
    ensures
        spec_map_of(entries).dom().len() == entries.len(),
        spec_map_of(entries).dom().finite(),
    decreases entries.len(),
{
    if entries.len() == 0 {
        assert(spec_map_of(entries).dom() =~= Set::<K>::empty());
    } else {
        let rest = entries.drop_last();
        lemma_map_of_len(rest);
        let last = entries.last();
        assert(spec_map_of(entries).dom() =~= spec_map_of(rest).dom().insert(last.0)) by {
            assert forall|id: K| spec_map_of(entries).dom().contains(id) implies spec_map_of(
                rest,
            ).dom().contains(id) || id == last.0 by {
                let i = choose|i: int| 0 <= i < entries.len() && (#[trigger] entries[i]).0 == id;
                if i < entries.len() - 1 {
                    assert(rest[i].0 == id);
                }
            }
            assert forall|id: K| spec_map_of(rest).dom().contains(id) implies spec_map_of(
                entries,
            ).dom().contains(id) by {
                let i = choose|i: int| 0 <= i < rest.len() && (#[trigger] rest[i]).0 == id;
                assert(entries[i].0 == id);
            }
            assert(entries[entries.len() - 1].0 == last.0);
        }
        assert(!spec_map_of(rest).dom().contains(last.0)) by {
            if spec_map_of(rest).dom().contains(last.0) {
                let i = choose|i: int| 0 <= i < rest.len() && (#[trigger] rest[i]).0 == last.0;
                assert(entries[i].0 == entries[entries.len() - 1].0);
            }
        }
    }
}

pub(crate) proof fn lemma_map_of_push<K, V>(entries: Seq<(K, V)>, id: K, slot: V)
    requires
        spec_keys_unique(entries),
        forall|k: int| 0 <= k < entries.len() ==> (#[trigger] entries[k]).0 != id,
    ensures
        spec_keys_unique(entries.push((id, slot))),
        spec_map_of(entries.push((id, slot))) == spec_map_of(entries).insert(id, slot),
{
    let ep = entries.push((id, slot));
    assert(spec_map_of(ep) =~= spec_map_of(entries).insert(id, slot)) by {
        assert forall|x: K| spec_map_of(ep).dom().contains(x) implies spec_map_of(
            entries,
        ).dom().contains(x) || x == id by {
            let k = choose|k: int| 0 <= k < ep.len() && (#[trigger] ep[k]).0 == x;
            if k < entries.len() {
                assert(entries[k].0 == x);
            }
        }
        assert forall|x: K| spec_map_of(entries).dom().contains(x) implies spec_map_of(
            ep,
        ).dom().contains(x) by {
            let k = choose|k: int| 0 <= k < entries.len() && (#[trigger] entries[k]).0 == x;
            assert(ep[k].0 == x);
        }
        assert(ep[ep.len() - 1].0 == id);
        assert forall|x: K| spec_map_of(ep).dom().contains(x) implies spec_map_of(ep)[x]
            == spec_map_of(entries).insert(id, slot)[x] by {
            let k = choose|k: int| 0 <= k < ep.len() && (#[trigger] ep[k]).0 == x;
            let w = choose|w: int| 0 <= w < ep.len() && (#[trigger] ep[w]).0 == x;
            assert(w == k);
            if x != id {
                assert(k < entries.len());
                let w2 = choose|w: int|
                    0 <= w < entries.len() && (#[trigger] entries[w]).0 == x;
                assert(w2 == k);
            } else {
                assert(k == ep.len() - 1);
            }
        }
    }
}


/// Removing index `i` by swapping the last entry in (the shape
/// `Vec::swap_remove` leaves) removes exactly key `id` from the map.
pub(crate) proof fn lemma_map_of_swap_remove<K, V>(entries: Seq<(K, V)>, i: int, id: K)
    requires
        spec_keys_unique(entries),
        0 <= i < entries.len(),
        entries[i].0 == id,
    ensures
        spec_keys_unique(entries.update(i, entries.last()).drop_last()),
        spec_map_of(entries.update(i, entries.last()).drop_last()) == spec_map_of(entries).remove(
            id,
        ),
{
    let pe = entries;
    let se = entries.update(i, entries.last()).drop_last();
    assert(spec_keys_unique(se)) by {
        assert forall|k: int, j: int| 0 <= k < j < se.len() implies (#[trigger] se[k]).0 != (
        #[trigger] se[j]).0 by {
            let mk: int = if k == i {
                pe.len() - 1
            } else {
                k
            };
            let mj: int = if j == i {
                pe.len() - 1
            } else {
                j
            };
            assert(se[k] == pe[mk]);
            assert(se[j] == pe[mj]);
            assert(mk != mj);
        }
    }
    assert(spec_map_of(se) =~= spec_map_of(pe).remove(id)) by {
        assert forall|x: K| spec_map_of(se).dom().contains(x) implies spec_map_of(pe).remove(
            id,
        ).dom().contains(x) by {
            let k = choose|k: int| 0 <= k < se.len() && (#[trigger] se[k]).0 == x;
            if k == i {
                assert(se[k] == pe.last());
                assert(pe[pe.len() - 1].0 == x);
            } else {
                assert(pe[k].0 == x);
            }
            assert(x != id);
        }
        assert forall|x: K| spec_map_of(pe).remove(id).dom().contains(x) implies spec_map_of(
            se,
        ).dom().contains(x) by {
            let k = choose|k: int| 0 <= k < pe.len() && (#[trigger] pe[k]).0 == x;
            assert(k != i);
            if k < pe.len() - 1 {
                assert(se[k].0 == x);
            } else {
                assert(i < pe.len() - 1 || x == id);
                assert(se[i].0 == x);
            }
        }
        assert forall|x: K| spec_map_of(se).dom().contains(x) implies spec_map_of(se)[x]
            == spec_map_of(pe).remove(id)[x] by {
            let k = choose|k: int| 0 <= k < se.len() && (#[trigger] se[k]).0 == x;
            let w = choose|w: int| 0 <= w < se.len() && (#[trigger] se[w]).0 == x;
            assert(w == k);
            let src: int = if k == i {
                pe.len() - 1
            } else {
                k
            };
            assert(se[k] == pe[src]);
            let w2 = choose|w: int| 0 <= w < pe.len() && (#[trigger] pe[w]).0 == x;
            assert(w2 == src);
        }
    }
}

/// An entry's key is in the map and maps to the entry's value.
pub(crate) proof fn lemma_map_of_at<K, V>(entries: Seq<(K, V)>, i: int)
    requires
        spec_keys_unique(entries),
        0 <= i < entries.len(),
    ensures
        spec_map_of(entries).dom().contains(entries[i].0),
        spec_map_of(entries)[entries[i].0] == entries[i].1,
{
    let id = entries[i].0;
    let w = choose|k: int| 0 <= k < entries.len() && (#[trigger] entries[k]).0 == id;
    assert(0 <= w < entries.len() && entries[w].0 == id);
    assert(w == i);
}

} // verus!
