//! Client-side correlation bookkeeping.
//!
//! The set of correlation ids for which an up-message has been sent but no
//! matching down-message has yet arrived. Its non-emptiness is the only
//! signal available to show "processing" state; it is cleared
//! opportunistically when down-messages arrive and is not persisted.

use vstd::prelude::*;
use crate::ids::CorId;

verus! {

/// The pending set: correlation ids awaiting their down-message.
///
/// Viewed as the mathematical set of ids it holds; the backing vector
/// never holds an id twice.
pub struct PendingCorIds {
    ids: Vec<CorId>,
}

impl View for PendingCorIds {
    type V = Set<CorId>;

    closed spec fn view(&self) -> Set<CorId> {
        Set::new(|c: CorId| self.ids@.contains(c))
    }
}

impl PendingCorIds {
    /// No id is recorded twice.
    pub closed spec fn wf(self) -> bool {
        forall|i: int, j: int|
            0 <= i < j < self.ids@.len() ==> #[trigger] self.ids@[i] != #[trigger] self.ids@[j]
    }

    /// An empty pending set.
    pub fn new() -> (r: PendingCorIds)
        ensures
            r.wf(),
            r@ =~= Set::<CorId>::empty(),
    {
        PendingCorIds { ids: Vec::new() }
    }

    /// Whether `cor_id` is still awaiting its down-message.
    pub fn contains(&self, cor_id: CorId) -> (r: bool)
        ensures
            r == self@.contains(cor_id),
    {
        let n = self.ids.len();
        let mut i: usize = 0;
        while i < n
            invariant
                n == self.ids@.len(),
                0 <= i <= n,
                forall|j: int| 0 <= j < i ==> #[trigger] self.ids@[j] != cor_id,
            decreases n - i,
        {
            if self.ids[i] == cor_id {
                return true;
            }
            i += 1;
        }
        false
    }

    /// Record an up-message as sent: `cor_id` becomes pending. Recording
    /// an id that is already pending changes nothing.
    pub fn insert(&mut self, cor_id: CorId)
        requires
            old(self).wf(),
        ensures
            final(self).wf(),
            final(self)@ == old(self)@.insert(cor_id),
    {
        if !self.contains(cor_id) {
            let ghost old_ids = self.ids@;
            self.ids.push(cor_id);
            proof {
                assert forall|c: CorId| #[trigger]
                    self@.contains(c) == old(self)@.insert(cor_id).contains(c) by {
                    if self.ids@.contains(c) {
                        let k = choose|k: int| 0 <= k < self.ids@.len() && self.ids@[k] == c;
                        if k < old_ids.len() {
                            assert(old_ids[k] == c);
                        }
                    }
                    if old_ids.contains(c) {
                        let k = choose|k: int| 0 <= k < old_ids.len() && old_ids[k] == c;
                        assert(self.ids@[k] == c);
                    }
                    if c == cor_id {
                        assert(self.ids@[self.ids@.len() - 1] == c);
                    }
                }
                assert(self@ =~= old(self)@.insert(cor_id));
            }
        } else {
            proof {
                assert(self@ =~= old(self)@.insert(cor_id));
            }
        }
    }

    /// A down-message bearing `cor_id` arrived: the id is no longer
    /// pending. Removing an id that was not pending changes nothing.
    pub fn remove(&mut self, cor_id: CorId)
        requires
            old(self).wf(),
        ensures
            final(self).wf(),
            final(self)@ == old(self)@.remove(cor_id),
    {
        let n = self.ids.len();
        let mut i: usize = 0;
        while i < n
            invariant
                old(self).wf(),
                *self == *old(self),
                n == self.ids@.len(),
                0 <= i <= n,
                forall|j: int| 0 <= j < i ==> #[trigger] self.ids@[j] != cor_id,
            decreases n - i,
        {
            if self.ids[i] == cor_id {
                let ghost old_ids = self.ids@;
                self.ids.remove(i);
                proof {
                    assert(self.ids@ =~= old_ids.subrange(0, i as int) + old_ids.subrange(
                        i + 1,
                        old_ids.len() as int,
                    ));
                    assert forall|a: int, b: int|
                        0 <= a < b < self.ids@.len() implies #[trigger] self.ids@[a] != #[trigger]
                    self.ids@[b] by {
                        let a0 = if a < i as int { a } else { a + 1 };
                        let b0 = if b < i as int { b } else { b + 1 };
                        assert(self.ids@[a] == old_ids[a0]);
                        assert(self.ids@[b] == old_ids[b0]);
                    }
                    assert forall|c: CorId| #[trigger]
                        self@.contains(c) == old(self)@.remove(cor_id).contains(c) by {
                        if self.ids@.contains(c) {
                            let k = choose|k: int| 0 <= k < self.ids@.len() && self.ids@[k] == c;
                            let k0 = if k < i as int { k } else { k + 1 };
                            assert(old_ids[k0] == c);
                            assert(old_ids[i as int] == cor_id);
                            if c == cor_id {
                                assert(old_ids[k0] == old_ids[i as int] && k0 != i as int);
                            }
                        }
                        if old_ids.contains(c) && c != cor_id {
                            let k = choose|k: int| 0 <= k < old_ids.len() && old_ids[k] == c;
                            if k < i as int {
                                assert(self.ids@[k] == c);
                            } else {
                                assert(self.ids@[k - 1] == c);
                            }
                        }
                    }
                    assert(self@ =~= old(self)@.remove(cor_id));
                }
                return ;
            }
            i += 1;
        }
        proof {
            assert(!self.ids@.contains(cor_id));
            assert(self@ =~= old(self)@.remove(cor_id));
        }
    }

    /// Whether any up-message is still awaiting its down-message: the one
    /// signal that drives "processing" state.
    pub fn is_empty(&self) -> (r: bool)
        ensures
            r <==> self@ =~= Set::<CorId>::empty(),
    {
        let empty = self.ids.len() == 0;
        proof {
            if !empty {
                assert(self.ids@.contains(self.ids@[0]));
                assert(self@.contains(self.ids@[0]));
            }
        }
        empty
    }
}

} // verus!
