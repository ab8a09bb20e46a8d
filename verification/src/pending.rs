//! The correlation table: in-flight request ids mapped to single-use
//! completion slots.
//!
//! A connection task registers a slot under the request's id before
//! posting the request to the event loop, and the event loop resolves
//! the slot when the handler finishes.  The table is generic in the
//! slot type: the transport layer stores its one-shot senders in it.
//! Thread sharing (the mutex around the table) belongs to the
//! embedder; everything the table itself does is stated here.
//!
//! An id collision — registering an id that is still in flight —
//! replaces the old slot and hands it back, orphaning the old waiter;
//! the caller may instead refuse the request by checking `contains`
//! first.

use crate::kvmap::{lemma_map_of_at, lemma_map_of_len, lemma_map_of_push, lemma_map_of_swap_remove, spec_keys_unique, spec_map_of};
use vstd::prelude::*;

verus! {

/// Correlation table keyed by request id.  The view is the map from
/// live ids to their slots.
pub struct PendingTable<T> {
    entries: Vec<(u8, T)>,
}

impl<T> PendingTable<T> {
    /// Keys are unique, so the map view is faithful.
    pub closed spec fn wf(&self) -> bool {
        spec_keys_unique(self.entries@)
    }

    pub closed spec fn view(&self) -> Map<u8, T> {
        spec_map_of(self.entries@)
    }

    proof fn lemma_view_at(&self, i: int)
        requires
            self.wf(),
            0 <= i < self.entries@.len(),
        ensures
            self@.dom().contains(self.entries@[i].0),
            self@[self.entries@[i].0] == self.entries@[i].1,
    {
        lemma_map_of_at(self.entries@, i);
    }

    /// An empty table: nothing in flight.
    pub fn new() -> (r: Self)
        ensures
            r.wf(),
            r@ == Map::<u8, T>::empty(),
    {
        let r = PendingTable { entries: Vec::new() };
        proof {
            assert(r@ =~= Map::<u8, T>::empty());
        }
        r
    }

    /// How many requests are in flight.
    pub fn len(&self) -> (r: usize)
        requires
            self.wf(),
        ensures
            r == self@.dom().len(),
    {
        proof {
            self.lemma_len();
        }
        self.entries.len()
    }

    proof fn lemma_len(&self)
        requires
            self.wf(),
        ensures
            self@.dom().len() == self.entries@.len(),
    {
        lemma_map_of_len(self.entries@);
    }

    /// Whether `id` is in flight.
    #[verifier::loop_isolation(false)]
    pub fn contains(&self, id: u8) -> (r: bool)
        requires
            self.wf(),
        ensures
            r == self@.dom().contains(id),
    {
        let n = self.entries.len();
        let mut i: usize = 0;
        while i < n
            invariant
                n == self.entries@.len(),
                i <= n,
                forall|k: int| 0 <= k < i ==> (#[trigger] self.entries@[k]).0 != id,
            decreases n - i,
        {
            if self.entries[i].0 == id {
                proof {
                    self.lemma_view_at(i as int);
                }
                return true;
            }
            i = i + 1;
        }
        proof {
            if self@.dom().contains(id) {
                let k = choose|k: int|
                    0 <= k < self.entries@.len() && (#[trigger] self.entries@[k]).0 == id;
            }
        }
        false
    }

    /// Registers a slot for `id`.  The table afterwards maps `id` to
    /// `slot`; if `id` was already in flight its old slot comes back —
    /// an orphaned waiter the caller must deal with.
    #[verifier::loop_isolation(false)]
    pub fn register(&mut self, id: u8, slot: T) -> (r: Option<T>)
        requires
            old(self).wf(),
        ensures
            final(self).wf(),
            final(self)@ == old(self)@.insert(id, slot),
            match r {
                Some(old_slot) => old(self)@.dom().contains(id) && old(self)@[id] == old_slot,
                None => !old(self)@.dom().contains(id),
            },
    {
        let n = self.entries.len();
        let mut i: usize = 0;
        while i < n
            invariant
                n == self.entries@.len(),
                i <= n,
                self.entries@ == old(self).entries@,
                forall|k: int| 0 <= k < i ==> (#[trigger] self.entries@[k]).0 != id,
            decreases n - i,
        {
            if self.entries[i].0 == id {
                proof {
                    self.lemma_view_at(i as int);
                }
                let ghost prev = *self;
                let ghost old_entries = self.entries@;
                let pair = self.entries.swap_remove(i);
                proof {
                    lemma_map_of_swap_remove(old_entries, i as int, id);
                    assert forall|k: int|
                        0 <= k < self.entries@.len() implies (#[trigger] self.entries@[k]).0
                        != id by {
                        if self.entries@[k].0 == id {
                            assert(self@.dom().contains(id));
                        }
                    }
                    lemma_map_of_push(self.entries@, id, slot);
                }
                self.entries.push((id, slot));
                proof {
                    assert(self@ =~= old(self)@.insert(id, slot));
                }
                return Some(pair.1);
            }
            i = i + 1;
        }
        proof {
            lemma_map_of_push(self.entries@, id, slot);
            if old(self)@.dom().contains(id) {
                let k = choose|k: int|
                    0 <= k < self.entries@.len() && (#[trigger] self.entries@[k]).0 == id;
            }
        }
        self.entries.push((id, slot));
        None
    }

    /// Takes the slot for `id` out of the table, if one is in flight.
    /// Resolving an id twice, or an unknown id, gives `None` — the
    /// orphan-resolve case, which the event loop logs and ignores.
    #[verifier::loop_isolation(false)]
    #[verifier::loop_isolation(false)]
    pub fn remove(&mut self, id: u8) -> (r: Option<T>)
        requires
            old(self).wf(),
        ensures
            final(self).wf(),
            final(self)@ == old(self)@.remove(id),
            match r {
                Some(slot) => old(self)@.dom().contains(id) && old(self)@[id] == slot,
                None => !old(self)@.dom().contains(id),
            },
    {
        let n = self.entries.len();
        let mut i: usize = 0;
        while i < n
            invariant
                n == self.entries@.len(),
                i <= n,
                self.entries@ == old(self).entries@,
                forall|k: int| 0 <= k < i ==> (#[trigger] self.entries@[k]).0 != id,
            decreases n - i,
        {
            if self.entries[i].0 == id {
                proof {
                    self.lemma_view_at(i as int);
                }
                let ghost old_entries = self.entries@;
                let pair = self.entries.swap_remove(i);
                proof {
                    lemma_map_of_swap_remove(old_entries, i as int, id);
                }
                return Some(pair.1);
            }
            i = i + 1;
        }
        proof {
            if old(self)@.dom().contains(id) {
                let k = choose|k: int|
                    0 <= k < self.entries@.len() && (#[trigger] self.entries@[k]).0 == id;
            }
            assert(self@ =~= old(self)@.remove(id));
        }
        None
    }

}

/// Id isolation: with two distinct ids in flight, resolving one id
/// yields exactly the slot registered under it — never the other's —
/// and leaves the other untouched.  With each connection's response
/// written through its own slot, no request can receive another's
/// payload.
pub proof fn lemma_id_isolation<T>(m: Map<u8, T>, a: u8, wa: T, b: u8, wb: T)
    requires
        a != b,
    ensures
        m.insert(a, wa).insert(b, wb)[a] == wa,
        m.insert(a, wa).insert(b, wb)[b] == wb,
        m.insert(a, wa).insert(b, wb).remove(a)[b] == wb,
        !m.insert(a, wa).insert(b, wb).remove(a).dom().contains(a),
{
}

} // verus!
