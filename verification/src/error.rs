//! The failures a poll operation can report.

use vstd::prelude::*;

verus! {

/// Why a poll operation was refused.
///
/// Every refusal is decided before anything is written, so an `Err` always
/// comes with an unchanged poll.
#[derive(Copy, Clone, Debug, PartialEq, Eq, PartialOrd, Ord, Hash, Structural)]
pub enum PollError {
    /// The poll has not been set up yet.
    PollNotInitialized,
    /// This identity has already cast its one vote.
    AlreadyVoted,
    /// The label is not one of the poll's options.
    InvalidOption,
    /// The poll has already been set up; the first setup stands.
    AlreadyInitialized,
    /// Kept for operations that only the administrator may perform. No
    /// operation of this crate reports it.
    Unauthorized,
}

impl PollError {
    /// The number under which a host reports this failure to its callers.
    pub open spec fn spec_code(self) -> u32 {
        match self {
            PollError::PollNotInitialized => 1,
            PollError::AlreadyVoted => 2,
            PollError::InvalidOption => 3,
            PollError::AlreadyInitialized => 4,
            PollError::Unauthorized => 5,
        }
    }

    /// The number under which a host reports this failure to its callers.
    #[verifier::when_used_as_spec(spec_code)]
    pub fn code(self) -> (c: u32)
        ensures
            c == self.spec_code(),
    {
        match self {
            PollError::PollNotInitialized => 1,
            PollError::AlreadyVoted => 2,
            PollError::InvalidOption => 3,
            PollError::AlreadyInitialized => 4,
            PollError::Unauthorized => 5,
        }
    }
}

/// Two failures with the same code are the same failure.
pub proof fn lemma_codes_are_distinct(a: PollError, b: PollError)
    ensures
        a.spec_code() == b.spec_code() <==> a == b,
{
}

} // verus!
