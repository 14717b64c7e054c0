//! The decisions of a poll, from what one call has read of the stored state
//! to what the call answers.
//!
//! These functions hold no state. A host that keeps the poll in a store of
//! its own reads the entries a call needs, asks here, and writes what the
//! answer tells it to.

use vstd::prelude::*;
use crate::error::PollError;
use crate::names::{spellings, Label};

verus! {

/// The count that a stored tally entry stands for: nothing stored counts as
/// zero.
pub open spec fn stored_count(stored: Option<u32>) -> nat {
    match stored {
        Some(count) => count as nat,
        None => 0,
    }
}

/// A count as the model sees it.
pub open spec fn count_answer(r: Result<u32, PollError>) -> Result<nat, PollError> {
    match r {
        Ok(count) => Ok(count as nat),
        Err(e) => Err(e),
    }
}

/// What a vote on a poll that is set up answers, given whether the voter is
/// on record, whether the option is listed, and the option's stored count.
/// The record is consulted before the list.
pub open spec fn vote_decision(already_voted: bool, listed: bool, stored: Option<u32>) -> Result<
    nat,
    PollError,
> {
    if already_voted {
        Err(PollError::AlreadyVoted)
    } else if !listed {
        Err(PollError::InvalidOption)
    } else {
        Ok(stored_count(stored) + 1)
    }
}

/// Lets a call through only if the poll is set up.
pub fn require_initialized(initialized: bool) -> (r: Result<(), PollError>)
    ensures
        r == (if initialized {
            Ok::<(), PollError>(())
        } else {
            Err::<(), PollError>(PollError::PollNotInitialized)
        }),
{
    if initialized {
        Ok(())
    } else {
        Err(PollError::PollNotInitialized)
    }
}

/// Lets a setup through only if the poll has not been set up before.
pub fn require_uninitialized(initialized: bool) -> (r: Result<(), PollError>)
    ensures
        r == (if initialized {
            Err::<(), PollError>(PollError::AlreadyInitialized)
        } else {
            Ok::<(), PollError>(())
        }),
{
    if initialized {
        Err(PollError::AlreadyInitialized)
    } else {
        Ok(())
    }
}

/// Whether `option` is one of `options`.
pub fn is_listed(options: &Vec<Label>, option: &Label) -> (r: bool)
    ensures
        r == spellings(options@).contains(option@),
{
    let mut i: usize = 0;
    while i < options.len()
        invariant
            i <= options.len(),
            forall|j: int| 0 <= j < i ==> options[j]@ != option@,
        decreases options.len() - i,
    {
        if options[i].same(option) {
            assert(spellings(options@)[i as int] == option@);
            return true;
        }
        i = i + 1;
    }
    false
}

/// Decides a vote on a poll that is set up: the option's new count, or why
/// the vote is refused.
pub fn decide_vote(already_voted: bool, listed: bool, stored: Option<u32>) -> (r: Result<
    u32,
    PollError,
>)
    requires
        !already_voted && listed ==> stored_count(stored) < u32::MAX,
    ensures
        count_answer(r) == vote_decision(already_voted, listed, stored),
{
    if already_voted {
        return Err(PollError::AlreadyVoted);
    }
    if !listed {
        return Err(PollError::InvalidOption);
    }
    let current: u32 = match stored {
        Some(count) => count,
        None => 0,
    };
    Ok(current + 1)
}

/// What a count query answers, given whether the poll is set up and what is
/// stored for the option.
pub fn report_count(initialized: bool, stored: Option<u32>) -> (r: Result<u32, PollError>)
    ensures
        count_answer(r) == (if initialized {
            Ok::<nat, PollError>(stored_count(stored))
        } else {
            Err::<nat, PollError>(PollError::PollNotInitialized)
        }),
{
    if !initialized {
        return Err(PollError::PollNotInitialized);
    }
    match stored {
        Some(count) => Ok(count),
        None => Ok(0),
    }
}

} // verus!
