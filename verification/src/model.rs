//! The poll as mathematics: its state, what each operation answers, and the
//! state it leaves behind.
//!
//! Names are sequences of characters here. The executable poll is specified
//! against these definitions.

use vstd::prelude::*;
use crate::error::PollError;

verus! {

/// The word sent out for one counted vote: a two-part topic, then who voted,
/// for what, and the option's count with this vote included.
pub struct Notice {
    /// The first part of the topic: the namespace.
    pub namespace: Seq<char>,
    /// The second part of the topic: the action.
    pub action: Seq<char>,
    /// Who voted.
    pub voter: Seq<char>,
    /// What was voted for.
    pub option: Seq<char>,
    /// The option's count with this vote included.
    pub count: nat,
}

/// The notice of one counted vote. The topic is the same for every vote.
pub open spec fn vote_notice(voter: Seq<char>, option: Seq<char>, count: nat) -> Notice {
    Notice { namespace: "poll"@, action: "voted"@, voter, option, count }
}

/// Everything a poll remembers.
#[verifier::ext_equal]
pub struct PollState {
    /// Whether the poll has been set up. Set once, never cleared.
    pub initialized: bool,
    /// Who set the poll up.
    pub admin: Option<Seq<char>>,
    /// The options as they were handed in: order and repetitions kept.
    pub options: Seq<Seq<char>>,
    /// Votes counted so far, per option.
    pub tally: Map<Seq<char>, nat>,
    /// Who has voted.
    pub voters: Set<Seq<char>>,
    /// One notice per counted vote, oldest first.
    pub notices: Seq<Notice>,
}

/// One state-changing call that reaches the poll.
pub enum Call {
    /// Set the poll up.
    Initialize { admin: Seq<char>, options: Seq<Seq<char>> },
    /// Cast a vote.
    Vote { voter: Seq<char>, option: Seq<char> },
}

/// The tally right after setup: every listed option at zero. An option listed
/// more than once still has a single entry.
pub open spec fn zero_tally(options: Seq<Seq<char>>) -> Map<Seq<char>, nat> {
    Map::new(|label: Seq<char>| options.contains(label), |label: Seq<char>| 0nat)
}

/// The sum of all entries of a tally.
pub open spec fn total(tally: Map<Seq<char>, nat>) -> nat
    decreases tally.dom().len(),
{
    if tally.dom().finite() && tally.dom().len() > 0 {
        let label = tally.dom().choose();
        tally[label] + total(tally.remove(label))
    } else {
        0
    }
}

impl PollState {
    /// A poll that nobody has set up.
    pub open spec fn fresh() -> PollState {
        PollState {
            initialized: false,
            admin: None,
            options: Seq::empty(),
            tally: Map::empty(),
            voters: Set::empty(),
            notices: Seq::empty(),
        }
    }

    /// Whether the notice at `i` fits the poll: it goes under the fixed topic,
    /// its voter is on record, and its count is one that the option has
    /// reached.
    pub open spec fn notice_fits(self, i: int) -> bool {
        let notice = self.notices[i];
        &&& notice == vote_notice(notice.voter, notice.option, notice.count)
        &&& self.voters.contains(notice.voter)
        &&& self.tally.contains_key(notice.option)
        &&& 1 <= notice.count <= self.tally[notice.option]
    }

    /// What holds of a poll at all times: before setup it is empty; after
    /// setup it has an administrator and a tally entry for exactly the listed
    /// options; the tally adds up to the number of voters on record; and
    /// there is one fitting notice per voter.
    pub open spec fn inv(self) -> bool {
        &&& self.tally.dom().finite()
        &&& self.voters.finite()
        &&& self.initialized ==> self.admin is Some
        &&& self.initialized ==> self.tally.dom() =~= self.options.to_set()
        &&& !self.initialized ==> self =~= PollState::fresh()
        &&& total(self.tally) == self.voters.len()
        &&& self.notices.len() == self.voters.len()
        &&& forall|i: int| 0 <= i < self.notices.len() ==> #[trigger] self.notice_fits(i)
    }

    /// What `initialize` answers.
    pub open spec fn initialize_result(self) -> Result<(), PollError> {
        if self.initialized {
            Err(PollError::AlreadyInitialized)
        } else {
            Ok(())
        }
    }

    /// The poll after `initialize`. A refused call leaves it as it was.
    pub open spec fn initialize(self, admin: Seq<char>, options: Seq<Seq<char>>) -> PollState {
        if self.initialized {
            self
        } else {
            PollState {
                initialized: true,
                admin: Some(admin),
                options: options,
                tally: zero_tally(options),
                ..self
            }
        }
    }

    /// What `vote` answers: the option's new count, or the first check, in
    /// this order, that the call fails.
    pub open spec fn vote_result(self, voter: Seq<char>, option: Seq<char>) -> Result<
        nat,
        PollError,
    > {
        if !self.initialized {
            Err(PollError::PollNotInitialized)
        } else if self.voters.contains(voter) {
            Err(PollError::AlreadyVoted)
        } else if !self.tally.contains_key(option) {
            Err(PollError::InvalidOption)
        } else {
            Ok(self.tally[option] + 1)
        }
    }

    /// The poll after `vote`. A counted vote raises one entry by one, records
    /// the voter and sends one notice; a refused call leaves the poll as it
    /// was.
    pub open spec fn vote(self, voter: Seq<char>, option: Seq<char>) -> PollState {
        match self.vote_result(voter, option) {
            Ok(count) => PollState {
                tally: self.tally.insert(option, count),
                voters: self.voters.insert(voter),
                notices: self.notices.push(vote_notice(voter, option, count)),
                ..self
            },
            Err(_) => self,
        }
    }

    /// What `get_vote_count` answers. A label that was never an option counts
    /// zero, like an option without votes.
    pub open spec fn vote_count(self, option: Seq<char>) -> Result<nat, PollError> {
        if !self.initialized {
            Err(PollError::PollNotInitialized)
        } else if self.tally.contains_key(option) {
            Ok(self.tally[option])
        } else {
            Ok(0nat)
        }
    }

    /// What `get_options` answers.
    pub open spec fn options_list(self) -> Result<Seq<Seq<char>>, PollError> {
        if !self.initialized {
            Err(PollError::PollNotInitialized)
        } else {
            Ok(self.options)
        }
    }

    /// What `has_voted` answers.
    pub open spec fn has_voted(self, voter: Seq<char>) -> bool {
        self.initialized && self.voters.contains(voter)
    }

    /// The poll after one call.
    pub open spec fn step(self, call: Call) -> PollState {
        match call {
            Call::Initialize { admin, options } => self.initialize(admin, options),
            Call::Vote { voter, option } => self.vote(voter, option),
        }
    }

    /// The poll after a run of calls, first to last.
    pub open spec fn run(self, calls: Seq<Call>) -> PollState
        decreases calls.len(),
    {
        if calls.len() == 0 {
            self
        } else {
            self.run(calls.drop_last()).step(calls.last())
        }
    }
}

/// Any one entry can be taken out of the sum first.
pub proof fn lemma_total_remove(tally: Map<Seq<char>, nat>, label: Seq<char>)
    requires
        tally.dom().finite(),
        tally.contains_key(label),
    ensures
        total(tally) == tally[label] + total(tally.remove(label)),
    decreases tally.dom().len(),
{
    let first = tally.dom().choose();
    if first != label {
        lemma_total_remove(tally.remove(first), label);
        lemma_total_remove(tally.remove(label), first);
        assert(tally.remove(first).remove(label) =~= tally.remove(label).remove(first));
    }
}

/// A tally of zeros sums to zero.
pub proof fn lemma_total_of_zeros(tally: Map<Seq<char>, nat>)
    requires
        tally.dom().finite(),
        forall|label: Seq<char>| tally.contains_key(label) ==> tally[label] == 0,
    ensures
        total(tally) == 0,
    decreases tally.dom().len(),
{
    if tally.dom().len() > 0 {
        lemma_total_of_zeros(tally.remove(tally.dom().choose()));
    }
}

/// Raising one entry by one raises the sum by one.
pub proof fn lemma_total_after_vote(tally: Map<Seq<char>, nat>, label: Seq<char>)
    requires
        tally.dom().finite(),
        tally.contains_key(label),
    ensures
        total(tally.insert(label, tally[label] + 1)) == total(tally) + 1,
{
    let after = tally.insert(label, tally[label] + 1);
    lemma_total_remove(tally, label);
    lemma_total_remove(after, label);
    assert(after.remove(label) =~= tally.remove(label));
}

/// No entry exceeds the sum.
pub proof fn lemma_entry_within_total(tally: Map<Seq<char>, nat>, label: Seq<char>)
    requires
        tally.dom().finite(),
        tally.contains_key(label),
    ensures
        tally[label] <= total(tally),
{
    lemma_total_remove(tally, label);
}

/// `initialize` keeps what holds at all times.
pub proof fn lemma_initialize_keeps_inv(s: PollState, admin: Seq<char>, options: Seq<Seq<char>>)
    requires
        s.inv(),
    ensures
        s.initialize(admin, options).inv(),
{
    if !s.initialized {
        vstd::seq_lib::seq_to_set_is_finite(options);
        lemma_total_of_zeros(zero_tally(options));
    }
}

/// `vote` keeps what holds at all times.
pub proof fn lemma_vote_keeps_inv(s: PollState, voter: Seq<char>, option: Seq<char>)
    requires
        s.inv(),
    ensures
        s.vote(voter, option).inv(),
{
    if s.vote_result(voter, option) is Ok {
        let after = s.vote(voter, option);
        lemma_total_after_vote(s.tally, option);
        assert forall|i: int| 0 <= i < after.notices.len() implies #[trigger] after.notice_fits(
            i,
        ) by {
            if i < s.notices.len() {
                assert(s.notice_fits(i));
            }
        }
    }
}

/// A run of calls keeps what holds at all times.
pub proof fn lemma_run_keeps_inv(s: PollState, calls: Seq<Call>)
    requires
        s.inv(),
    ensures
        s.run(calls).inv(),
    decreases calls.len(),
{
    if calls.len() > 0 {
        lemma_run_keeps_inv(s, calls.drop_last());
        let before = s.run(calls.drop_last());
        match calls.last() {
            Call::Initialize { admin, options } => lemma_initialize_keeps_inv(before, admin, options),
            Call::Vote { voter, option } => lemma_vote_keeps_inv(before, voter, option),
        }
    }
}

} // verus!
