//! Cycle avoidance for the tree walker. The walk itself touches the file
//! system and so lives with the caller; the decision that guarantees
//! termination on pathological structures — admit each canonical directory
//! or file identity at most once, however many links lead to it — is
//! verified here.

use vstd::prelude::*;

verus! {

/// A canonical filesystem identity: device and inode number.
pub type FileIdent = (u64, u64);

/// The set of canonical identities a walk has already entered.
pub struct VisitedSet {
    seen: Vec<FileIdent>,
}

impl View for VisitedSet {
    type V = Set<FileIdent>;

    closed spec fn view(&self) -> Set<FileIdent> {
        Set::new(|p: FileIdent| self.seen@.contains(p))
    }
}

impl VisitedSet {
    /// A fresh walk: nothing visited yet.
    pub fn new() -> (r: VisitedSet)
        ensures
            r@ == Set::<FileIdent>::empty(),
    {
        let r = VisitedSet { seen: Vec::new() };
        proof {
            assert(r@ =~= Set::<FileIdent>::empty());
        }
        r
    }

    /// Whether the identity was already visited.
    pub fn contains(&self, dev: u64, ino: u64) -> (b: bool)
        ensures
            b == self@.contains((dev, ino)),
    {
        let mut j: usize = 0;
        while j < self.seen.len()
            invariant
                j <= self.seen@.len(),
                forall|k: int| 0 <= k < j ==> self.seen@[k] != (dev, ino),
            decreases self.seen@.len() - j,
        {
            let entry = self.seen[j];
            if entry.0 == dev && entry.1 == ino {
                assert(self.seen@.contains((dev, ino)));
                return true;
            }
            j += 1;
        }
        assert(!self.seen@.contains((dev, ino)));
        false
    }

    /// Records a visit. Returns whether the identity was fresh: `true` at
    /// most once per identity over the whole walk, so a walker that enters a
    /// directory only on `true` terminates even on a link cycle and offers
    /// each real file exactly once.
    pub fn try_visit(&mut self, dev: u64, ino: u64) -> (fresh: bool)
        ensures
            fresh == !old(self)@.contains((dev, ino)),
            final(self)@ == old(self)@.insert((dev, ino)),
    {
        if self.contains(dev, ino) {
            proof {
                assert(self@ =~= old(self)@.insert((dev, ino)));
            }
            false
        } else {
            self.seen.push((dev, ino));
            proof {
                broadcast use vstd::seq_lib::lemma_seq_contains_after_push;

                assert(self.seen@ == old(self).seen@.push((dev, ino)));
                assert(self@ =~= old(self)@.insert((dev, ino)));
            }
            true
        }
    }
}

} // verus!
