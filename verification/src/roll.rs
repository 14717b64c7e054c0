//! The record of who has voted.

use vstd::prelude::*;
use crate::names::Identity;

verus! {

/// The identities that have voted. Entries are added and never taken away,
/// and nobody is entered twice.
pub struct VoterRoll {
    entered: Vec<Identity>,
}

impl View for VoterRoll {
    type V = Set<Seq<char>>;

    closed spec fn view(&self) -> Set<Seq<char>> {
        self.names().to_set()
    }
}

impl VoterRoll {
    /// The entries by name, oldest first.
    closed spec fn names(&self) -> Seq<Seq<char>> {
        self.entered@.map_values(|id: Identity| id@)
    }

    /// Nobody is entered twice.
    pub closed spec fn wf(&self) -> bool {
        self.names().no_duplicates()
    }

    /// A roll without entries.
    pub fn new() -> (roll: VoterRoll)
        ensures
            roll.wf(),
            roll@ == Set::<Seq<char>>::empty(),
    {
        VoterRoll { entered: Vec::new() }
    }

    /// Whether `id` is entered.
    pub fn contains(&self, id: &Identity) -> (r: bool)
        ensures
            r == self@.contains(id@),
    {
        let mut i: usize = 0;
        while i < self.entered.len()
            invariant
                i <= self.entered.len(),
                forall|j: int| 0 <= j < i ==> self.entered[j]@ != id@,
            decreases self.entered.len() - i,
        {
            if self.entered[i].same(id) {
                assert(self.names()[i as int] == id@);
                return true;
            }
            i = i + 1;
        }
        false
    }

    /// Enters `id`.
    pub fn enter(&mut self, id: &Identity)
        requires
            old(self).wf(),
            !old(self)@.contains(id@),
        ensures
            final(self).wf(),
            final(self)@ == old(self)@.insert(id@),
    {
        let ghost before = self.names();
        self.entered.push(id.duplicate());
        proof {
            assert(self.names() =~= before.push(id@));
            before.lemma_push_to_set_commute(id@);
        }
    }
}

} // verus!
