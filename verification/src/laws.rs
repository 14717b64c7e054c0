//! What holds of every poll, proved from the model.

use vstd::prelude::*;
use crate::contract::PollContract;
use crate::error::PollError;
use crate::model::{lemma_entry_within_total, lemma_run_keeps_inv, total, zero_tally, Call, PollState};
use crate::rules::{stored_count, vote_decision};

verus! {

/// A poll is set up once. Whatever a first `initialize` did, a second one is
/// refused with `AlreadyInitialized` and leaves the poll exactly as the first
/// left it; and if the first did set the poll up, administrator, options and
/// tally are what it was given.
pub proof fn lemma_initialize_only_once(
    s: PollState,
    admin: Seq<char>,
    options: Seq<Seq<char>>,
    other_admin: Seq<char>,
    other_options: Seq<Seq<char>>,
)
    ensures
        ({
            let first = s.initialize(admin, options);
            &&& first.initialize_result() == Err::<(), PollError>(PollError::AlreadyInitialized)
            &&& first.initialize(other_admin, other_options) == first
            &&& !s.initialized ==> first.admin == Some(admin) && first.options == options
                && first.tally == zero_tally(options)
        }),
{
}

/// Setup is final: after any run of calls on a poll that is set up, the poll
/// is still set up, with the same administrator, the same options in the
/// same order, and a tally entry for exactly the same labels.
pub proof fn lemma_setup_is_final(s: PollState, calls: Seq<Call>)
    requires
        s.initialized,
    ensures
        s.run(calls).initialized,
        s.run(calls).admin == s.admin,
        s.run(calls).options == s.options,
        s.run(calls).tally.dom() == s.tally.dom(),
    decreases calls.len(),
{
    if calls.len() > 0 {
        lemma_setup_is_final(s, calls.drop_last());
    }
}

/// The voter record only grows: who is on record stays on record through any
/// run of calls.
pub proof fn lemma_record_is_kept(s: PollState, calls: Seq<Call>, voter: Seq<char>)
    requires
        s.voters.contains(voter),
    ensures
        s.run(calls).voters.contains(voter),
    decreases calls.len(),
{
    if calls.len() > 0 {
        lemma_record_is_kept(s, calls.drop_last(), voter);
    }
}

/// Each identity votes once. After one counted vote, and whatever calls come
/// in between, every further vote of the same identity, for any label, is
/// refused with `AlreadyVoted` and changes nothing.
pub proof fn lemma_one_vote_per_identity(
    s: PollState,
    voter: Seq<char>,
    option: Seq<char>,
    later: Seq<Call>,
    again: Seq<char>,
)
    requires
        s.vote_result(voter, option) is Ok,
    ensures
        ({
            let then = s.vote(voter, option).run(later);
            &&& then.vote_result(voter, again) == Err::<nat, PollError>(PollError::AlreadyVoted)
            &&& then.vote(voter, again) == then
        }),
{
    let voted = s.vote(voter, option);
    lemma_setup_is_final(voted, later);
    lemma_record_is_kept(voted, later, voter);
}

/// At all times the entries of the tally add up to the number of identities
/// on record: this holds of a poll that nobody has set up, and every run of
/// calls keeps it.
pub proof fn lemma_votes_equal_voters(calls: Seq<Call>)
    ensures
        ({
            let s = PollState::fresh().run(calls);
            &&& s.inv()
            &&& s.voters.finite()
            &&& total(s.tally) == s.voters.len()
        }),
{
    crate::model::lemma_total_of_zeros(PollState::fresh().tally);
    lemma_run_keeps_inv(PollState::fresh(), calls);
}

/// The same holds of every well-formed poll in memory, and no option has more
/// votes than there are voters.
pub proof fn lemma_poll_votes_equal_voters(poll: PollContract, option: Seq<char>)
    requires
        poll.wf(),
    ensures
        poll@.voters.finite(),
        total(poll@.tally) == poll@.voters.len(),
        poll@.tally.contains_key(option) ==> poll@.tally[option] <= poll@.voters.len(),
{
    if poll@.tally.contains_key(option) {
        lemma_entry_within_total(poll@.tally, option);
    }
}

/// The options are closed. On a poll that is set up, a vote for a label that
/// is not among the options, by an identity that has not voted, is refused
/// with `InvalidOption` and changes nothing.
pub proof fn lemma_unlisted_option_is_refused(s: PollState, voter: Seq<char>, option: Seq<char>)
    requires
        s.inv(),
        s.initialized,
        !s.voters.contains(voter),
        !s.options.contains(option),
    ensures
        s.vote_result(voter, option) == Err::<nat, PollError>(PollError::InvalidOption),
        s.vote(voter, option) == s,
{
}

/// Before setup, every count query, option query and vote is refused with
/// `PollNotInitialized`, nothing changes, and nobody has voted.
pub proof fn lemma_nothing_before_setup(s: PollState, voter: Seq<char>, option: Seq<char>)
    requires
        s.inv(),
        !s.initialized,
    ensures
        s.vote_count(option) == Err::<nat, PollError>(PollError::PollNotInitialized),
        s.options_list() == Err::<Seq<Seq<char>>, PollError>(PollError::PollNotInitialized),
        s.vote_result(voter, option) == Err::<nat, PollError>(PollError::PollNotInitialized),
        s.vote(voter, option) == s,
        !s.has_voted(voter),
        !s.voters.contains(voter),
{
}

/// No operation reports `Unauthorized`: the kind is kept for operations that
/// only the administrator may perform, and the poll has none.
pub proof fn lemma_unauthorized_is_never_reported(
    s: PollState,
    voter: Seq<char>,
    option: Seq<char>,
)
    ensures
        s.initialize_result() != Err::<(), PollError>(PollError::Unauthorized),
        s.vote_result(voter, option) != Err::<nat, PollError>(PollError::Unauthorized),
        s.vote_count(option) != Err::<nat, PollError>(PollError::Unauthorized),
        s.options_list() != Err::<Seq<Seq<char>>, PollError>(PollError::Unauthorized),
{
}

/// Votes of two different identities do not depend on their order: either
/// order leaves the same tally and the same voter record.
pub proof fn lemma_votes_commute(
    s: PollState,
    voter: Seq<char>,
    option: Seq<char>,
    other_voter: Seq<char>,
    other_option: Seq<char>,
)
    requires
        voter != other_voter,
    ensures
        s.vote(voter, option).vote(other_voter, other_option).tally == s.vote(
            other_voter,
            other_option,
        ).vote(voter, option).tally,
        s.vote(voter, option).vote(other_voter, other_option).voters == s.vote(
            other_voter,
            other_option,
        ).vote(voter, option).voters,
{
}

/// A host that keeps the poll in a store of its own decides as the model
/// does: on a poll that is set up, the decision taken from what the host has
/// read (whether the voter is on record, whether the option is listed, and
/// the option's stored count) is the model's answer.
pub proof fn lemma_decision_is_the_models(
    s: PollState,
    voter: Seq<char>,
    option: Seq<char>,
    stored: Option<u32>,
)
    requires
        s.inv(),
        s.initialized,
        match stored {
            Some(count) => s.tally.contains_key(option) && s.tally[option] == count,
            None => !s.tally.contains_key(option),
        },
    ensures
        vote_decision(s.voters.contains(voter), s.options.contains(option), stored)
            == s.vote_result(voter, option),
        s.vote_count(option) == Ok::<nat, PollError>(stored_count(stored)),
{
}

} // verus!
