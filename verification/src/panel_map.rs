//! A map from panel identity to a value, with one slot per panel.

use vstd::prelude::*;

use crate::message::{panel_ordinal, PanelId, PANEL_COUNT};

verus! {

/// The panel with the given position in the enumeration.
pub open spec fn panel_of_ordinal(i: int) -> PanelId {
    if i == 0 {
        PanelId::ClusterChart
    } else if i == 1 {
        PanelId::TickChart
    } else if i == 2 {
        PanelId::BubbleChart
    } else if i == 3 {
        PanelId::OrderBook
    } else if i == 4 {
        PanelId::Tape
    } else {
        PanelId::BottomBar
    }
}

pub proof fn lemma_ordinal_round_trip(id: PanelId, i: int)
    ensures
        panel_of_ordinal(panel_ordinal(id)) == id,
        0 <= i < PANEL_COUNT ==> panel_ordinal(panel_of_ordinal(i)) == i,
{
}

pub fn panel_from_ordinal(i: usize) -> (id: PanelId)
    requires
        i < PANEL_COUNT,
    ensures
        id == panel_of_ordinal(i as int),
{
    if i == 0 {
        PanelId::ClusterChart
    } else if i == 1 {
        PanelId::TickChart
    } else if i == 2 {
        PanelId::BubbleChart
    } else if i == 3 {
        PanelId::OrderBook
    } else if i == 4 {
        PanelId::Tape
    } else {
        PanelId::BottomBar
    }
}

/// A finite map keyed by panel identity.
pub struct PanelMap<V> {
    slots: Vec<Option<V>>,
}

impl<V> View for PanelMap<V> {
    type V = Map<PanelId, V>;

    closed spec fn view(&self) -> Map<PanelId, V> {
        Map::new(
            |id: PanelId| self.slots@[panel_ordinal(id)] is Some,
            |id: PanelId| self.slots@[panel_ordinal(id)]->0,
        )
    }
}

impl<V> PanelMap<V> {
    #[verifier::type_invariant]
    closed spec fn inv(self) -> bool {
        self.slots@.len() == PANEL_COUNT
    }
}

impl<V: Copy> PanelMap<V> {
    /// The map with no entries.
    pub fn new() -> (m: Self)
        ensures
            m@ == Map::<PanelId, V>::empty(),
    {
        let m = PanelMap { slots: vec![None, None, None, None, None, None] };
        assert(m@ =~= Map::<PanelId, V>::empty());
        m
    }

    /// The value stored for a panel, if any.
    pub fn get(&self, id: PanelId) -> (r: Option<V>)
        ensures
            r == (if self@.contains_key(id) {
                Some(self@[id])
            } else {
                None
            }),
    {
        proof {
            use_type_invariant(self);
        }
        let i = id.ordinal();
        self.slots[i]
    }

    /// Stores a value for a panel, replacing any earlier one.
    pub fn insert(&mut self, id: PanelId, v: V)
        ensures
            final(self)@ == old(self)@.insert(id, v),
    {
        proof {
            use_type_invariant(&*self);
        }
        let i = id.ordinal();
        let mut slots: Vec<Option<V>> = vec![None, None, None, None, None, None];
        std::mem::swap(&mut slots, &mut self.slots);
        slots.set(i, Some(v));
        self.slots = slots;
        proof {
            assert forall|k: PanelId| #![auto] self@.contains_key(k) == old(self)@.insert(id, v).contains_key(k)
                by {
                crate::message::lemma_ordinal_injective(k, id);
            }
            assert(self@ =~= old(self)@.insert(id, v));
        }
    }

    /// The entries as (panel, value) pairs, in enumeration order: every
    /// entry once, nothing else.
    pub fn entries(&self) -> (r: Vec<(PanelId, V)>)
        ensures
            forall|i: int| 0 <= i < r@.len() ==> #[trigger] self@.contains_key(r@[i].0) && self@[r@[i].0] == r@[i].1,
            forall|id: PanelId| self@.contains_key(id) ==> exists|i: int| 0 <= i < r@.len() && #[trigger] r@[i].0 == id,
            forall|i: int, j: int| 0 <= i < j < r@.len() ==> r@[i].0 != r@[j].0,
            forall|i: int, j: int|
                0 <= i < j < r@.len() ==> panel_ordinal(r@[i].0) < panel_ordinal(r@[j].0),
    {
        proof {
            use_type_invariant(self);
        }
        let mut r: Vec<(PanelId, V)> = Vec::new();
        let mut k: usize = 0;
        while k < PANEL_COUNT
            invariant
                self.slots@.len() == PANEL_COUNT,
                k <= PANEL_COUNT,
                forall|i: int| 0 <= i < r@.len() ==> #[trigger] self@.contains_key(r@[i].0) && self@[r@[i].0] == r@[i].1,
                forall|i: int| 0 <= i < r@.len() ==> panel_ordinal(#[trigger] r@[i].0) < k,
                forall|id: PanelId| self@.contains_key(id) && panel_ordinal(id) < k ==> exists|i: int| 0 <= i < r@.len() && #[trigger] r@[i].0 == id,
                forall|i: int, j: int| 0 <= i < j < r@.len() ==> panel_ordinal(r@[i].0) < panel_ordinal(r@[j].0),
            decreases PANEL_COUNT - k,
        {
            let id = panel_from_ordinal(k);
            let ghost old_r = r@;
            proof {
                lemma_ordinal_round_trip(id, k as int);
            }
            match self.slots[k] {
                Some(v) => {
                    r.push((id, v));
                    proof {
                        assert(r@[r@.len() - 1].0 == id);
                    }
                },
                None => {},
            }
            k = k + 1;
            proof {
                assert forall|pid: PanelId| self@.contains_key(pid) && panel_ordinal(pid) < k implies exists|i: int| 0 <= i < r@.len() && #[trigger] r@[i].0 == pid by {
                    if panel_ordinal(pid) == k - 1 {
                        lemma_ordinal_round_trip(pid, k - 1);
                        assert(r@[r@.len() - 1].0 == pid);
                    } else {
                        let w = choose|i: int| 0 <= i < old_r.len() && #[trigger] old_r[i].0 == pid;
                        assert(r@[w].0 == pid);
                    }
                }
            }
        }
        proof {
            assert forall|i: int, j: int| 0 <= i < j < r@.len() implies r@[i].0 != r@[j].0 by {
                assert(panel_ordinal(r@[i].0) < panel_ordinal(r@[j].0));
            }
        }
        r
    }
}

} // verus!
