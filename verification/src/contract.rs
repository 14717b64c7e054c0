//! The poll itself: the stored state and the five operations on it.

use vstd::prelude::*;
use crate::error::PollError;
use crate::model::{
    lemma_initialize_keeps_inv, lemma_total_of_zeros, lemma_vote_keeps_inv, vote_notice,
    zero_tally, Notice, PollState,
};
use crate::names::{duplicate_labels, spellings, Identity, Label};
use crate::roll::VoterRoll;
use crate::rules::{
    count_answer, decide_vote, is_listed, report_count, require_initialized,
    require_uninitialized,
};
use crate::tally::Tally;

verus! {

/// The notice that goes out for one counted vote.
#[derive(Clone, Debug, PartialEq, Eq)]
pub struct VoteEvent {
    /// Who voted.
    pub voter: Identity,
    /// What was voted for.
    pub option: Label,
    /// The option's count with this vote included.
    pub count: u32,
}

impl View for VoteEvent {
    type V = Notice;

    open spec fn view(&self) -> Notice {
        vote_notice(self.voter@, self.option@, self.count as nat)
    }
}

impl VoteEvent {
    /// The two-part topic under which every notice goes out: the namespace,
    /// then the action.
    pub fn topics() -> (topic: (&'static str, &'static str))
        ensures
            topic.0@ == "poll"@,
            topic.1@ == "voted"@,
    {
        ("poll", "voted")
    }

    /// A second value for the same notice.
    pub fn duplicate(&self) -> (event: VoteEvent)
        ensures
            event@ == self@,
    {
        VoteEvent {
            voter: self.voter.duplicate(),
            option: self.option.duplicate(),
            count: self.count,
        }
    }
}

/// What a list of events says, in order.
pub open spec fn notices_of(events: Seq<VoteEvent>) -> Seq<Notice> {
    events.map_values(|e: VoteEvent| e@)
}

/// An option list as the model sees it.
pub open spec fn options_answer(r: Result<Vec<Label>, PollError>) -> Result<
    Seq<Seq<char>>,
    PollError,
> {
    match r {
        Ok(labels) => Ok(spellings(labels@)),
        Err(e) => Err(e),
    }
}

/// An administrator as the model sees it.
pub open spec fn admin_view(admin: Option<Identity>) -> Option<Seq<char>> {
    match admin {
        Some(id) => Some(id@),
        None => None,
    }
}

/// One poll with everything it has stored.
///
/// The setup flag, the administrator and the option list belong to the poll
/// instance; the tally and the voter record are the long-lived entries, one
/// per option and one per voter.
pub struct PollContract {
    initialized: bool,
    admin: Option<Identity>,
    options: Vec<Label>,
    tally: Tally,
    voters: VoterRoll,
    events: Vec<VoteEvent>,
}

impl View for PollContract {
    type V = PollState;

    closed spec fn view(&self) -> PollState {
        PollState {
            initialized: self.initialized,
            admin: admin_view(self.admin),
            options: spellings(self.options@),
            tally: self.tally@,
            voters: self.voters@,
            notices: notices_of(self.events@),
        }
    }
}

impl PollContract {
    /// The stores are in order: no option has two tally entries and no voter
    /// is on record twice.
    pub closed spec fn stores_wf(&self) -> bool {
        self.tally.wf() && self.voters.wf()
    }

    /// The poll is well formed: its stores are in order, and what holds of a
    /// poll at all times holds of it.
    pub open spec fn wf(&self) -> bool {
        self.stores_wf() && self@.inv()
    }

    /// A poll that nobody has set up.
    pub fn new() -> (poll: PollContract)
        ensures
            poll.wf(),
            poll@ == PollState::fresh(),
    {
        let poll = PollContract {
            initialized: false,
            admin: None,
            options: Vec::new(),
            tally: Tally::new(),
            voters: VoterRoll::new(),
            events: Vec::new(),
        };
        proof {
            assert(spellings(poll.options@) =~= Seq::<Seq<char>>::empty());
            lemma_total_of_zeros(poll@.tally);
        }
        poll
    }

    /// Sets the poll up: stores the administrator and the options as given,
    /// and starts every option at zero.
    ///
    /// A poll is set up once. A later call is refused with
    /// `AlreadyInitialized`, whoever makes it, and changes nothing. The
    /// administrator answers for the first call: `authenticated` says that
    /// the host has authenticated `admin` for it.
    ///
    /// The options are taken as they come. An empty list is accepted, and so
    /// is a list that names an option twice: the list keeps both mentions,
    /// while the tally has one entry for the label, so that both mentions
    /// share one count.
    #[allow(unused_variables)]
    pub fn initialize(&mut self, admin: &Identity, options: &Vec<Label>, authenticated: bool) -> (r:
        Result<(), PollError>)
        requires
            old(self).wf(),
            !old(self)@.initialized ==> authenticated,
        ensures
            final(self).wf(),
            r == old(self)@.initialize_result(),
            final(self)@ == old(self)@.initialize(admin@, spellings(options@)),
    {
        if let Err(e) = require_uninitialized(self.initialized) {
            return Err(e);
        }
        let ghost before = self@;
        let ghost listed = spellings(options@);
        let mut i: usize = 0;
        while i < options.len()
            invariant
                i <= options.len(),
                listed == spellings(options@),
                self.tally.wf(),
                self.tally@ =~= zero_tally(listed.take(i as int)),
                self.voters == old(self).voters,
                self.events == old(self).events,
                self.initialized == old(self).initialized,
            decreases options.len() - i,
        {
            self.tally.set(&options[i], 0);
            proof {
                let done = listed.take(i as int);
                let next = listed.take(i + 1);
                assert forall|label: Seq<char>| next.contains(label) <==> (done.contains(label)
                    || label == options[i as int]@) by {
                    if done.contains(label) {
                        assert(next[done.index_of(label)] == label);
                    }
                    if label == options[i as int]@ {
                        assert(next[i as int] == label);
                    }
                }
            }
            i = i + 1;
        }
        self.admin = Some(admin.duplicate());
        self.options = duplicate_labels(options);
        self.initialized = true;
        proof {
            assert(listed.take(options.len() as int) =~= listed);
            lemma_initialize_keeps_inv(before, admin@, listed);
        }
        Ok(())
    }

    /// Casts the vote of `voter` for `option` and answers the option's new
    /// count.
    ///
    /// The checks run in this order, and the first that fails decides: the
    /// poll is set up, else `PollNotInitialized`; the voter is not on record,
    /// else `AlreadyVoted`; the option is one of the poll's, else
    /// `InvalidOption`. A refused vote changes nothing. A counted vote raises
    /// the option's count by one, puts the voter on record and sends one
    /// notice.
    ///
    /// `authenticated` says that the host has authenticated `voter` for this
    /// call. Only a poll that is not set up may be asked without it, so that
    /// an unauthenticated caller learns neither whether the voter is on
    /// record nor whether the option exists.
    #[allow(unused_variables)]
    pub fn vote(&mut self, voter: &Identity, option: &Label, authenticated: bool) -> (r: Result<
        u32,
        PollError,
    >)
        requires
            old(self).wf(),
            old(self)@.initialized ==> authenticated,
            old(self)@.vote_result(voter@, option@) matches Ok(count) ==> count <= u32::MAX,
        ensures
            final(self).wf(),
            count_answer(r) == old(self)@.vote_result(voter@, option@),
            final(self)@ == old(self)@.vote(voter@, option@),
    {
        if let Err(e) = require_initialized(self.initialized) {
            return Err(e);
        }
        let ghost before = self@;
        let already_voted = self.voters.contains(voter);
        let listed = is_listed(&self.options, option);
        let stored = self.tally.get(option);
        match decide_vote(already_voted, listed, stored) {
            Err(e) => Err(e),
            Ok(count) => {
                self.tally.set(option, count);
                self.voters.enter(voter);
                self.events.push(
                    VoteEvent { voter: voter.duplicate(), option: option.duplicate(), count },
                );
                proof {
                    assert(self@ =~= before.vote(voter@, option@));
                    lemma_vote_keeps_inv(before, voter@, option@);
                }
                Ok(count)
            },
        }
    }

    /// The votes counted for `option`. A label that was never an option
    /// counts zero, like an option without votes.
    pub fn get_vote_count(&self, option: &Label) -> (r: Result<u32, PollError>)
        requires
            self.wf(),
        ensures
            count_answer(r) == self@.vote_count(option@),
    {
        let stored = if self.initialized {
            self.tally.get(option)
        } else {
            None
        };
        report_count(self.initialized, stored)
    }

    /// The options as they were handed in at setup: order and repetitions
    /// kept.
    pub fn get_options(&self) -> (r: Result<Vec<Label>, PollError>)
        ensures
            options_answer(r) == self@.options_list(),
    {
        if let Err(e) = require_initialized(self.initialized) {
            return Err(e);
        }
        Ok(duplicate_labels(&self.options))
    }

    /// Whether `voter` has voted. Anyone may ask; before setup the answer is
    /// `false` for everyone.
    pub fn has_voted(&self, voter: &Identity) -> (r: bool)
        requires
            self.wf(),
        ensures
            r == self@.has_voted(voter@),
    {
        self.voters.contains(voter)
    }

    /// Whether the poll has been set up.
    pub fn is_initialized(&self) -> (r: bool)
        ensures
            r == self@.initialized,
    {
        self.initialized
    }

    /// Who set the poll up, once it is set up.
    pub fn admin(&self) -> (r: Option<Identity>)
        ensures
            admin_view(r) == self@.admin,
    {
        match &self.admin {
            Some(id) => Some(id.duplicate()),
            None => None,
        }
    }

    /// The notices sent so far, oldest first.
    pub fn events(&self) -> (r: Vec<VoteEvent>)
        ensures
            notices_of(r@) == self@.notices,
    {
        let mut copy: Vec<VoteEvent> = Vec::new();
        let mut i: usize = 0;
        while i < self.events.len()
            invariant
                i <= self.events.len(),
                copy.len() == i,
                forall|j: int| 0 <= j < i ==> copy[j]@ == self.events[j]@,
            decreases self.events.len() - i,
        {
            copy.push(self.events[i].duplicate());
            i = i + 1;
        }
        copy
    }
}

} // verus!
