//! The feature registry: a fixed-capacity membership structure over CPU
//! feature identifiers, with monotonic union and a stable, ordered rendering.

use vstd::prelude::*;
use crate::FeatureId;
use crate::FEATURE_SLOTS;

verus! {

/// The set of identifiers that fit in the registry's fixed capacity.
pub open spec fn known(s: Set<FeatureId>) -> Set<FeatureId> {
    s.filter(|id: FeatureId| (id as usize) < FEATURE_SLOTS)
}

/// The set of identifiers that a sequence of decoded feature ids denotes.
pub open spec fn feats_of(ids: Seq<FeatureId>) -> Set<FeatureId>
    decreases ids.len(),
{
    if ids.len() == 0 {
        Set::empty()
    } else {
        feats_of(ids.drop_last()).insert(ids.last())
    }
}

/// A fixed-capacity feature membership structure (conceptually a bitset).
/// Bits are only ever set, never cleared: every operation grows the set.
pub struct FeatureSet {
    bits: Vec<bool>,
}

impl View for FeatureSet {
    type V = Set<FeatureId>;

    closed spec fn view(&self) -> Set<FeatureId> {
        Set::new(|id: FeatureId| (id as usize) < FEATURE_SLOTS && self.bits@[id as int])
    }
}

impl FeatureSet {
    /// Well-formedness: the backing bit vector has exactly one slot per
    /// possible identifier. Constructors establish it; operations keep it.
    pub closed spec fn wf(self) -> bool {
        self.bits@.len() == FEATURE_SLOTS
    }

    /// An empty feature set: no feature has been observed yet.
    pub fn new() -> (r: FeatureSet)
        ensures
            r.wf(),
            r@ == Set::<FeatureId>::empty(),
    {
        let mut bits: Vec<bool> = Vec::new();
        while bits.len() < FEATURE_SLOTS
            invariant
                bits@.len() <= FEATURE_SLOTS,
                forall|i: int| 0 <= i < bits@.len() ==> !bits@[i],
            decreases FEATURE_SLOTS - bits@.len(),
        {
            bits.push(false);
        }
        let r = FeatureSet { bits };
        proof {
            assert(r@ =~= Set::<FeatureId>::empty());
        }
        r
    }

    /// Sets the bit for `id`; a no-op if it is already set, and also a no-op
    /// for an id outside the registry's capacity (such an id is ignored
    /// rather than allowed to corrupt state).
    pub fn union(&mut self, id: FeatureId)
        requires
            old(self).wf(),
        ensures
            final(self).wf(),
            (id as usize) < FEATURE_SLOTS ==> final(self)@ == old(self)@.insert(id),
            (id as usize) >= FEATURE_SLOTS ==> final(self)@ == old(self)@,
    {
        if (id as usize) < FEATURE_SLOTS {
            self.bits.set(id as usize, true);
            proof {
                assert(self@ =~= old(self)@.insert(id));
            }
        } else {
            proof {
                assert(self@ =~= old(self)@);
            }
        }
    }

    /// Whether the bit for `id` is set.
    pub fn contains(&self, id: FeatureId) -> (b: bool)
        requires
            self.wf(),
        ensures
            b == self@.contains(id),
    {
        (id as usize) < FEATURE_SLOTS && self.bits[id as usize]
    }

    /// Unions a whole sequence of decoded feature ids into the set;
    /// ids outside the registry's capacity are ignored.
    pub fn union_all(&mut self, ids: &Vec<FeatureId>)
        requires
            old(self).wf(),
        ensures
            final(self).wf(),
            final(self)@ == old(self)@.union(known(feats_of(ids@))),
    {
        let mut j: usize = 0;
        while j < ids.len()
            invariant
                j <= ids@.len(),
                self.wf(),
                self@ == old(self)@.union(known(feats_of(ids@.take(j as int)))),
            decreases ids@.len() - j,
        {
            let id = ids[j];
            self.union(id);
            proof {
                let taken = ids@.take(j as int);
                let taken1 = ids@.take(j + 1int);
                assert(taken1.drop_last() =~= taken);
                assert(taken1.last() == id);
                assert(feats_of(taken1) == feats_of(taken).insert(id));
                if (id as usize) < FEATURE_SLOTS {
                    assert(known(feats_of(taken1)) =~= known(feats_of(taken)).insert(id));
                    assert(self@ =~= old(self)@.union(known(feats_of(taken1))));
                } else {
                    assert(known(feats_of(taken1)) =~= known(feats_of(taken)));
                    assert(self@ =~= old(self)@.union(known(feats_of(taken1))));
                }
            }
            j += 1;
        }
        proof {
            assert(ids@.take(ids@.len() as int) =~= ids@);
        }
    }

    /// Unions another feature set into this one, in place.
    pub fn merge(&mut self, other: &FeatureSet)
        requires
            old(self).wf(),
            other.wf(),
        ensures
            final(self).wf(),
            final(self)@ == old(self)@.union(other@),
    {
        let mut i: usize = 0;
        while i < FEATURE_SLOTS
            invariant
                i <= FEATURE_SLOTS,
                self.wf(),
                other.wf(),
                self@ == old(self)@.union(
                    (Set::new(|id: FeatureId| other@.contains(id) && (id as usize) < i))
                ),
            decreases FEATURE_SLOTS - i,
        {
            let ghost below = Set::new(|id: FeatureId| other@.contains(id) && (id as usize) < i);
            if other.bits[i] {
                self.union(i as u16);
            }
            proof {
                let below1 = Set::new(
                    |id: FeatureId| other@.contains(id) && (id as usize) < i + 1,
                );
                if other@.contains(i as u16) {
                    assert(below1 =~= below.insert(i as u16));
                    assert(self@ =~= old(self)@.union(below1));
                } else {
                    assert(below1 =~= below);
                    assert(self@ =~= old(self)@.union(below1));
                }
            }
            i += 1;
        }
        proof {
            assert((Set::new(|id: FeatureId| other@.contains(id) && (id as usize) < FEATURE_SLOTS))
                =~= other@);
        }
    }
}

} // verus!
