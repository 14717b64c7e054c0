//! Where a host keeps what a poll stores.
//!
//! A host store has two tiers. What belongs to the poll instance, and is small
//! and read on every call, goes to the instance tier. What grows with the
//! poll, one entry per option and one per voter, goes to the persistent tier.

use vstd::prelude::*;

verus! {

/// The lifetime class of a stored entry.
#[derive(Copy, Clone, Debug, PartialEq, Eq, Hash, Structural)]
pub enum Tier {
    /// Kept with the poll instance itself.
    Instance,
    /// Kept as an entry of its own, for as long as the poll lives.
    Persistent,
}

/// The kinds of entry a poll stores.
#[derive(Copy, Clone, Debug, PartialEq, Eq, Hash, Structural)]
pub enum Field {
    /// Who set the poll up.
    Admin,
    /// The option list as handed in.
    Options,
    /// The votes counted for one option.
    VoteCount,
    /// The mark that one identity has voted.
    HasVoted,
    /// The mark that the poll is set up.
    Initialized,
}

impl Field {
    /// The tier that entries of this kind belong to.
    pub open spec fn spec_tier(self) -> Tier {
        match self {
            Field::Admin => Tier::Instance,
            Field::Options => Tier::Instance,
            Field::Initialized => Tier::Instance,
            Field::VoteCount => Tier::Persistent,
            Field::HasVoted => Tier::Persistent,
        }
    }

    /// The tier that entries of this kind belong to.
    #[verifier::when_used_as_spec(spec_tier)]
    pub fn tier(self) -> (tier: Tier)
        ensures
            tier == self.spec_tier(),
    {
        match self {
            Field::Admin | Field::Options | Field::Initialized => Tier::Instance,
            Field::VoteCount | Field::HasVoted => Tier::Persistent,
        }
    }
}

} // verus!
