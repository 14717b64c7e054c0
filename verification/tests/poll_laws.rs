use poll::{Identity, Label, PollContract, PollError, VoteEvent};

fn labels(names: &[&str]) -> Vec<Label> {
    names.iter().map(|n| Label::new(n)).collect()
}

fn yes_no_poll() -> PollContract {
    let mut poll = PollContract::new();
    poll.initialize(&Identity::new("admin"), &labels(&["evet", "hayir"]), true).unwrap();
    poll
}

fn total_of(poll: &PollContract, options: &[&str]) -> u32 {
    options.iter().map(|o| poll.get_vote_count(&Label::new(o)).unwrap()).sum()
}

fn on_record(poll: &PollContract, voters: &[&str]) -> usize {
    voters.iter().filter(|v| poll.has_voted(&Identity::new(v))).count()
}

#[test]
fn second_initialize_is_refused_and_keeps_the_first_setup() {
    let mut poll = yes_no_poll();
    poll.vote(&Identity::new("v1"), &Label::new("evet"), true).unwrap();

    let second = poll.initialize(&Identity::new("intruder"), &labels(&["belki"]), false);
    assert_eq!(second, Err(PollError::AlreadyInitialized));

    assert_eq!(poll.admin(), Some(Identity::new("admin")));
    assert_eq!(poll.get_options(), Ok(labels(&["evet", "hayir"])));
    assert_eq!(poll.get_vote_count(&Label::new("evet")), Ok(1));
    assert_eq!(poll.get_vote_count(&Label::new("hayir")), Ok(0));
    assert_eq!(
        poll.vote(&Identity::new("v2"), &Label::new("belki"), true),
        Err(PollError::InvalidOption)
    );
    assert!(poll.has_voted(&Identity::new("v1")));
}

#[test]
fn second_initialize_right_after_the_first_changes_nothing() {
    let mut poll = yes_no_poll();
    let again = poll.initialize(&Identity::new("admin"), &labels(&["evet", "hayir"]), true);
    assert_eq!(again, Err(PollError::AlreadyInitialized));
    assert_eq!(poll.admin(), Some(Identity::new("admin")));
    assert_eq!(poll.get_options(), Ok(labels(&["evet", "hayir"])));
    assert_eq!(total_of(&poll, &["evet", "hayir"]), 0);
    assert!(poll.events().is_empty());
}

#[test]
fn an_identity_votes_exactly_once() {
    let mut poll = yes_no_poll();
    let v1 = Identity::new("v1");
    assert_eq!(poll.vote(&v1, &Label::new("evet"), true), Ok(1));

    for option in ["evet", "hayir", "kesinlikle"] {
        assert_eq!(poll.vote(&v1, &Label::new(option), true), Err(PollError::AlreadyVoted));
    }
    assert_eq!(poll.get_vote_count(&Label::new("evet")), Ok(1));
    assert_eq!(poll.get_vote_count(&Label::new("hayir")), Ok(0));
    assert_eq!(poll.events().len(), 1);

    assert_eq!(poll.vote(&Identity::new("v2"), &Label::new("hayir"), true), Ok(1));
    assert_eq!(poll.vote(&v1, &Label::new("hayir"), true), Err(PollError::AlreadyVoted));
    assert_eq!(poll.get_vote_count(&Label::new("hayir")), Ok(1));
    assert_eq!(poll.events().len(), 2);
}

#[test]
fn tally_total_equals_the_number_of_voters_on_record() {
    let mut poll = PollContract::new();
    let options = ["evet", "hayir", "belki"];
    let voters = ["v1", "v2", "v3", "v4", "v5"];
    assert_eq!(on_record(&poll, &voters), 0);

    poll.initialize(&Identity::new("admin"), &labels(&options), true).unwrap();
    assert_eq!(total_of(&poll, &options), 0);

    let calls = [
        ("v1", "evet"),
        ("v2", "evet"),
        ("v1", "hayir"),
        ("v3", "kesinlikle"),
        ("v3", "belki"),
        ("v4", "evet"),
        ("v2", "belki"),
        ("v5", "hayir"),
    ];
    for (voter, option) in calls {
        let _ = poll.vote(&Identity::new(voter), &Label::new(option), true);
        assert_eq!(total_of(&poll, &options) as usize, on_record(&poll, &voters));
        assert_eq!(poll.events().len(), on_record(&poll, &voters));
    }
    assert_eq!(total_of(&poll, &options), 5);
    assert_eq!(poll.get_vote_count(&Label::new("evet")), Ok(3));
    assert_eq!(poll.get_vote_count(&Label::new("hayir")), Ok(1));
    assert_eq!(poll.get_vote_count(&Label::new("belki")), Ok(1));
}

#[test]
fn a_vote_for_an_unlisted_label_changes_nothing() {
    let mut poll = yes_no_poll();
    poll.vote(&Identity::new("v1"), &Label::new("evet"), true).unwrap();
    let events_before = poll.events();

    let outsider = Identity::new("v2");
    assert_eq!(
        poll.vote(&outsider, &Label::new("kesinlikle"), true),
        Err(PollError::InvalidOption)
    );

    assert!(!poll.has_voted(&outsider));
    assert_eq!(poll.get_vote_count(&Label::new("kesinlikle")), Ok(0));
    assert_eq!(poll.get_vote_count(&Label::new("evet")), Ok(1));
    assert_eq!(poll.get_vote_count(&Label::new("hayir")), Ok(0));
    assert_eq!(poll.get_options(), Ok(labels(&["evet", "hayir"])));
    assert_eq!(poll.events(), events_before);
    assert_eq!(poll.vote(&outsider, &Label::new("hayir"), true), Ok(1));
}

#[test]
fn the_record_is_consulted_before_the_option_list() {
    let mut poll = yes_no_poll();
    let v1 = Identity::new("v1");
    poll.vote(&v1, &Label::new("evet"), true).unwrap();
    assert_eq!(poll.vote(&v1, &Label::new("kesinlikle"), true), Err(PollError::AlreadyVoted));
}

#[test]
fn nothing_is_answered_before_setup() {
    let mut poll = PollContract::new();
    let anyone = Identity::new("anyone");
    let evet = Label::new("evet");

    assert!(!poll.is_initialized());
    assert_eq!(poll.admin(), None);
    assert_eq!(poll.get_vote_count(&evet), Err(PollError::PollNotInitialized));
    assert_eq!(poll.get_options(), Err(PollError::PollNotInitialized));
    assert_eq!(poll.vote(&anyone, &evet, true), Err(PollError::PollNotInitialized));
    assert_eq!(poll.vote(&anyone, &evet, false), Err(PollError::PollNotInitialized));
    assert!(!poll.has_voted(&anyone));
    assert!(!poll.has_voted(&Identity::new("admin")));
    assert!(poll.events().is_empty());

    poll.initialize(&Identity::new("admin"), &labels(&["evet"]), true).unwrap();
    assert!(poll.is_initialized());
    assert!(!poll.has_voted(&anyone));
    assert_eq!(poll.vote(&anyone, &evet, true), Ok(1));
}

#[test]
fn three_votes_on_two_options() {
    let mut poll = yes_no_poll();
    let v1 = Identity::new("v1");
    let v2 = Identity::new("v2");
    let v3 = Identity::new("v3");
    let v4 = Identity::new("v4");

    assert_eq!(poll.vote(&v1, &Label::new("evet"), true), Ok(1));
    assert_eq!(poll.vote(&v2, &Label::new("evet"), true), Ok(2));
    assert_eq!(poll.vote(&v3, &Label::new("hayir"), true), Ok(1));

    assert_eq!(poll.get_vote_count(&Label::new("evet")), Ok(2));
    assert_eq!(poll.get_vote_count(&Label::new("hayir")), Ok(1));
    assert_eq!(poll.get_vote_count(&Label::new("belki")), Ok(0));

    assert!(poll.has_voted(&v1));
    assert!(!poll.has_voted(&v4));
}

#[test]
fn a_second_vote_of_the_same_identity_is_refused() {
    let mut poll = yes_no_poll();
    let v1 = Identity::new("v1");
    assert!(poll.vote(&v1, &Label::new("evet"), true).is_ok());
    assert_eq!(poll.vote(&v1, &Label::new("evet"), true), Err(PollError::AlreadyVoted));
}

#[test]
fn a_vote_for_a_label_outside_the_options_is_refused() {
    let mut poll = yes_no_poll();
    assert_eq!(
        poll.vote(&Identity::new("anyone"), &Label::new("kesinlikle"), true),
        Err(PollError::InvalidOption)
    );
}

#[test]
fn a_vote_on_a_fresh_poll_is_refused() {
    let mut poll = PollContract::new();
    assert_eq!(
        poll.vote(&Identity::new("anyone"), &Label::new("evet"), true),
        Err(PollError::PollNotInitialized)
    );
}

#[test]
fn an_option_listed_twice_has_one_tally_entry() {
    let mut poll = PollContract::new();
    poll.initialize(&Identity::new("admin"), &labels(&["evet", "hayir", "evet"]), true).unwrap();

    assert_eq!(poll.get_options(), Ok(labels(&["evet", "hayir", "evet"])));
    assert_eq!(poll.get_vote_count(&Label::new("evet")), Ok(0));
    assert_eq!(poll.vote(&Identity::new("v1"), &Label::new("evet"), true), Ok(1));
    assert_eq!(poll.vote(&Identity::new("v2"), &Label::new("evet"), true), Ok(2));
    assert_eq!(poll.get_vote_count(&Label::new("evet")), Ok(2));
    assert_eq!(poll.get_vote_count(&Label::new("hayir")), Ok(0));
    assert_eq!(poll.get_options().unwrap().len(), 3);
}

#[test]
fn an_empty_option_list_is_accepted() {
    let mut poll = PollContract::new();
    assert_eq!(poll.initialize(&Identity::new("admin"), &Vec::new(), true), Ok(()));
    assert!(poll.is_initialized());
    assert_eq!(poll.get_options(), Ok(Vec::new()));
    assert_eq!(poll.get_vote_count(&Label::new("evet")), Ok(0));
    assert_eq!(
        poll.vote(&Identity::new("v1"), &Label::new("evet"), true),
        Err(PollError::InvalidOption)
    );
    assert!(!poll.has_voted(&Identity::new("v1")));
}

#[test]
fn votes_of_different_identities_commute() {
    let mut one = yes_no_poll();
    let mut two = yes_no_poll();
    let a = Identity::new("a");
    let b = Identity::new("b");

    one.vote(&a, &Label::new("evet"), true).unwrap();
    one.vote(&b, &Label::new("hayir"), true).unwrap();
    two.vote(&b, &Label::new("hayir"), true).unwrap();
    two.vote(&a, &Label::new("evet"), true).unwrap();

    for option in ["evet", "hayir", "belki"] {
        assert_eq!(
            one.get_vote_count(&Label::new(option)),
            two.get_vote_count(&Label::new(option))
        );
    }
    for voter in [&a, &b] {
        assert_eq!(one.has_voted(voter), two.has_voted(voter));
    }
}

#[test]
fn notices_follow_the_counted_votes_in_order() {
    let mut poll = yes_no_poll();
    let evet = Label::new("evet");
    let hayir = Label::new("hayir");
    let v1 = Identity::new("v1");
    let v2 = Identity::new("v2");
    let v3 = Identity::new("v3");

    poll.vote(&v1, &evet, true).unwrap();
    let _ = poll.vote(&v1, &hayir, true);
    poll.vote(&v2, &hayir, true).unwrap();
    let _ = poll.vote(&v3, &Label::new("belki"), true);
    poll.vote(&v3, &evet, true).unwrap();

    assert_eq!(
        poll.events(),
        vec![
            VoteEvent { voter: v1.clone(), option: evet.clone(), count: 1 },
            VoteEvent { voter: v2.clone(), option: hayir.clone(), count: 1 },
            VoteEvent { voter: v3.clone(), option: evet.clone(), count: 2 },
        ]
    );
    assert_eq!(VoteEvent::topics(), ("poll", "voted"));
    let copy = poll.events()[2].duplicate();
    assert_eq!(copy, VoteEvent { voter: v3, option: evet, count: 2 });
}

#[test]
fn every_failure_has_its_own_code() {
    assert_eq!(PollError::PollNotInitialized.code(), 1);
    assert_eq!(PollError::AlreadyVoted.code(), 2);
    assert_eq!(PollError::InvalidOption.code(), 3);
    assert_eq!(PollError::AlreadyInitialized.code(), 4);
    assert_eq!(PollError::Unauthorized.code(), 5);
}
