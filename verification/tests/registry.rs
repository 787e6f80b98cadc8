use voting::{
    CandidateHandle, Identity, PollHandle, VoteReceipt, VoterRecord, VotingError, VotingRegistry,
};

fn who(tag: u8) -> Identity {
    Identity::new([tag; 32])
}

fn text(s: &str) -> String {
    s.to_string()
}

/// A registry with poll 1 open from 1000 to 2000 and candidates Alice and Bob.
fn two_candidates() -> VotingRegistry {
    let mut registry = VotingRegistry::new();
    registry
        .initialize_poll(who(9), 1, text("Best editor"), 1000, 2000, 500)
        .unwrap();
    registry.initialize_candidate(who(9), 1, text("Alice")).unwrap();
    registry.initialize_candidate(who(9), 1, text("Bob")).unwrap();
    registry
}

fn failure<T: std::fmt::Debug>(result: Result<T, VotingError>) -> VotingError {
    result.unwrap_err()
}

#[test]
fn new_registry_is_empty() {
    let registry = VotingRegistry::new();
    assert!(registry.poll(1).is_none());
    assert!(registry.candidate(1, &text("Alice")).is_none());
    assert!(registry.voter_record(&who(1), 1).is_none());
    assert!(!registry.has_voted(&who(1), 1));
    assert_eq!(registry.votes_tallied(1), 0);
    assert_eq!(registry.ballots_cast(1), 0);
}

#[test]
fn poll_is_created_with_zero_counters() {
    let mut registry = VotingRegistry::new();
    let handle = registry
        .initialize_poll(who(1), 42, text("Lunch"), 1000, 2000, 999)
        .unwrap();
    assert_eq!(handle, PollHandle { poll_id: 42 });
    let poll = registry.poll(42).unwrap();
    assert_eq!(poll.poll_id, 42);
    assert_eq!(poll.description, "Lunch");
    assert_eq!(poll.poll_start, 1000);
    assert_eq!(poll.poll_end, 2000);
    assert_eq!(poll.candidate_amount, 0);
    assert_eq!(poll.total_votes, 0);
    assert!(registry.poll(43).is_none());
}

#[test]
fn poll_is_created_exactly_once() {
    let mut registry = VotingRegistry::new();
    assert!(registry
        .initialize_poll(who(1), 7, text("First"), 1000, 2000, 500)
        .is_ok());
    let again = registry.initialize_poll(who(2), 7, text("Second"), 1100, 2100, 600);
    assert_eq!(failure(again), VotingError::AlreadyExists);
    let poll = registry.poll(7).unwrap();
    assert_eq!(poll.description, "First");
    assert_eq!(poll.poll_start, 1000);
    assert_eq!(poll.poll_end, 2000);
}

#[test]
fn taken_identifier_is_refused_before_the_window_is_checked() {
    let mut registry = VotingRegistry::new();
    registry
        .initialize_poll(who(1), 7, text("First"), 1000, 2000, 500)
        .unwrap();
    let again = registry.initialize_poll(who(1), 7, text("Bad"), 0, 0, 500);
    assert_eq!(failure(again), VotingError::AlreadyExists);
}

#[test]
fn poll_stays_created_after_other_calls() {
    let mut registry = two_candidates();
    registry.vote(who(1), 1, text("Alice"), 1500).unwrap();
    registry
        .initialize_poll(who(1), 2, text("Other"), 1000, 2000, 500)
        .unwrap();
    let again = registry.initialize_poll(who(1), 1, text("Again"), 1000, 2000, 500);
    assert_eq!(failure(again), VotingError::AlreadyExists);
}

#[test]
fn start_after_end_is_invalid_duration() {
    let mut registry = VotingRegistry::new();
    let result = registry.initialize_poll(who(1), 1, text("Backwards"), 100, 50, 10);
    assert_eq!(failure(result), VotingError::InvalidPollDuration);
    assert!(registry.poll(1).is_none());
}

#[test]
fn start_equal_to_end_is_invalid_duration() {
    let mut registry = VotingRegistry::new();
    let result = registry.initialize_poll(who(1), 1, text("Instant"), 100, 100, 10);
    assert_eq!(failure(result), VotingError::InvalidPollDuration);
}

#[test]
fn end_in_past_is_refused() {
    let mut registry = VotingRegistry::new();
    let result = registry.initialize_poll(who(1), 1, text("Late"), 1000, 2000, 2001);
    assert_eq!(failure(result), VotingError::PollEndedInPast);
    assert!(registry.poll(1).is_none());
}

#[test]
fn end_equal_to_now_is_refused() {
    let mut registry = VotingRegistry::new();
    let result = registry.initialize_poll(who(1), 1, text("Now"), 1000, 2000, 2000);
    assert_eq!(failure(result), VotingError::PollEndedInPast);
    let result = registry.initialize_poll(who(1), 1, text("Now"), 1000, 2000, 1999);
    assert!(result.is_ok());
}

#[test]
fn end_in_past_is_reported_before_the_duration() {
    let mut registry = VotingRegistry::new();
    let result = registry.initialize_poll(who(1), 1, text("Both"), 100, 50, 60);
    assert_eq!(failure(result), VotingError::PollEndedInPast);
}

#[test]
fn timestamps_out_of_range_are_refused() {
    let mut registry = VotingRegistry::new();
    for (start, end) in [
        (0u64, 2000u64),
        (1000, 0),
        (1000, 1_893_456_000),
        (1_893_456_000, 1_893_456_001),
        (u64::MAX, u64::MAX),
    ] {
        let result = registry.initialize_poll(who(1), 1, text("Range"), start, end, 500);
        assert_eq!(failure(result), VotingError::InvalidTimestamp);
    }
    assert!(registry.poll(1).is_none());
}

#[test]
fn timestamps_at_the_edges_of_the_range_are_accepted() {
    let mut registry = VotingRegistry::new();
    let result = registry.initialize_poll(who(1), 1, text("Wide"), 1, 1_893_455_999, 0);
    assert_eq!(result.unwrap(), PollHandle { poll_id: 1 });
}

#[test]
fn invalid_timestamp_is_reported_before_the_past_end() {
    let mut registry = VotingRegistry::new();
    let result = registry.initialize_poll(who(1), 1, text("Zero"), 0, 50, 60);
    assert_eq!(failure(result), VotingError::InvalidTimestamp);
}

#[test]
fn candidate_needs_an_existing_poll() {
    let mut registry = VotingRegistry::new();
    let result = registry.initialize_candidate(who(1), 5, text("Alice"));
    assert_eq!(failure(result), VotingError::PollNotFound);
    assert!(registry.candidate(5, &text("Alice")).is_none());
}

#[test]
fn candidate_raises_the_count_by_one_and_keeps_the_total() {
    let mut registry = two_candidates();
    registry.vote(who(1), 1, text("Alice"), 1500).unwrap();
    let before = registry.poll(1).unwrap();
    assert_eq!(before.candidate_amount, 2);
    assert_eq!(before.total_votes, 1);
    let handle: CandidateHandle = registry.initialize_candidate(who(3), 1, text("Carol")).unwrap();
    assert_eq!(handle.poll_id, 1);
    assert_eq!(handle.candidate_name, "Carol");
    let after = registry.poll(1).unwrap();
    assert_eq!(after.candidate_amount, 3);
    assert_eq!(after.total_votes, 1);
    let carol = registry.candidate(1, &text("Carol")).unwrap();
    assert_eq!(carol.candidate_name, "Carol");
    assert_eq!(carol.candidate_votes, 0);
    assert_eq!(registry.candidate(1, &text("Alice")).unwrap().candidate_votes, 1);
}

#[test]
fn candidate_is_registered_once_per_poll() {
    let mut registry = two_candidates();
    let again = registry.initialize_candidate(who(1), 1, text("Alice"));
    assert_eq!(failure(again), VotingError::DuplicateCandidate);
    assert_eq!(registry.poll(1).unwrap().candidate_amount, 2);
}

#[test]
fn same_name_under_another_poll_is_another_candidate() {
    let mut registry = two_candidates();
    registry
        .initialize_poll(who(1), 2, text("Second"), 1000, 2000, 500)
        .unwrap();
    registry.initialize_candidate(who(1), 2, text("Alice")).unwrap();
    registry.vote(who(1), 1, text("Alice"), 1500).unwrap();
    assert_eq!(registry.candidate(1, &text("Alice")).unwrap().candidate_votes, 1);
    assert_eq!(registry.candidate(2, &text("Alice")).unwrap().candidate_votes, 0);
    assert_eq!(registry.poll(1).unwrap().candidate_amount, 2);
    assert_eq!(registry.poll(2).unwrap().candidate_amount, 1);
    assert_eq!(registry.poll(2).unwrap().total_votes, 0);
}

#[test]
fn candidate_can_join_after_the_poll_has_ended() {
    let mut registry = two_candidates();
    registry.vote(who(1), 1, text("Alice"), 2000).unwrap();
    assert!(registry.initialize_candidate(who(1), 1, text("Latecomer")).is_ok());
    assert_eq!(registry.poll(1).unwrap().candidate_amount, 3);
}

#[test]
fn vote_needs_poll_and_candidate() {
    let mut registry = two_candidates();
    let result = registry.vote(who(1), 2, text("Alice"), 1500);
    assert_eq!(failure(result), VotingError::PollNotFound);
    let result = registry.vote(who(1), 1, text("Zed"), 1500);
    assert_eq!(failure(result), VotingError::CandidateNotFound);
    assert_eq!(registry.poll(1).unwrap().total_votes, 0);
    assert!(registry.voter_record(&who(1), 1).is_none());
}

#[test]
fn vote_before_start_is_refused_and_counts_nothing() {
    let mut registry = two_candidates();
    let result = registry.vote(who(1), 1, text("Alice"), 999);
    assert_eq!(failure(result), VotingError::PollNotStarted);
    assert_eq!(registry.poll(1).unwrap().total_votes, 0);
    assert_eq!(registry.poll(1).unwrap().candidate_amount, 2);
    assert_eq!(registry.candidate(1, &text("Alice")).unwrap().candidate_votes, 0);
    assert_eq!(registry.candidate(1, &text("Bob")).unwrap().candidate_votes, 0);
    assert!(registry.voter_record(&who(1), 1).is_none());
    assert!(!registry.has_voted(&who(1), 1));
}

#[test]
fn vote_after_end_is_refused_and_counts_nothing() {
    let mut registry = two_candidates();
    let result = registry.vote(who(1), 1, text("Alice"), 2001);
    assert_eq!(failure(result), VotingError::PollEnded);
    assert_eq!(registry.poll(1).unwrap().total_votes, 0);
    assert_eq!(registry.candidate(1, &text("Alice")).unwrap().candidate_votes, 0);
    assert!(registry.voter_record(&who(1), 1).is_none());
}

#[test]
fn window_includes_both_ends() {
    let mut registry = two_candidates();
    assert!(registry.vote(who(1), 1, text("Alice"), 1000).is_ok());
    assert!(registry.vote(who(2), 1, text("Alice"), 2000).is_ok());
    assert_eq!(registry.poll(1).unwrap().total_votes, 2);
}

#[test]
fn vote_in_window_then_after_end() {
    let mut registry = VotingRegistry::new();
    registry
        .initialize_poll(who(9), 1, text("Window"), 1000, 2000, 500)
        .unwrap();
    registry.initialize_candidate(who(9), 1, text("Alice")).unwrap();
    assert_eq!(registry.poll(1).unwrap().total_votes, 0);
    let receipt: VoteReceipt = registry.vote(who(1), 1, text("Alice"), 1500).unwrap();
    assert_eq!(receipt.poll_id, 1);
    assert_eq!(receipt.candidate_name, "Alice");
    assert_eq!(receipt.candidate_votes, 1);
    assert_eq!(receipt.total_votes, 1);
    assert_eq!(registry.poll(1).unwrap().total_votes, 1);

    let mut fresh = VotingRegistry::new();
    fresh
        .initialize_poll(who(9), 1, text("Window"), 1000, 2000, 500)
        .unwrap();
    fresh.initialize_candidate(who(9), 1, text("Alice")).unwrap();
    let late = fresh.vote(who(1), 1, text("Alice"), 2500);
    assert_eq!(failure(late), VotingError::PollEnded);
    assert_eq!(fresh.poll(1).unwrap().total_votes, 0);
}

#[test]
fn vote_marks_the_voter_with_the_poll() {
    let mut registry = two_candidates();
    registry.vote(who(1), 1, text("Bob"), 1500).unwrap();
    assert_eq!(
        registry.voter_record(&who(1), 1),
        Some(VoterRecord { voted: true, poll: 1 })
    );
    assert!(registry.has_voted(&who(1), 1));
    assert!(!registry.has_voted(&who(2), 1));
    assert!(!registry.has_voted(&who(1), 2));
}

#[test]
fn second_vote_is_refused_and_counts_nothing() {
    let mut registry = two_candidates();
    registry.vote(who(1), 1, text("Alice"), 1500).unwrap();
    let again = registry.vote(who(1), 1, text("Alice"), 1600);
    assert_eq!(failure(again), VotingError::AlreadyVoted);
    let other = registry.vote(who(1), 1, text("Bob"), 1600);
    assert_eq!(failure(other), VotingError::AlreadyVoted);
    assert_eq!(registry.poll(1).unwrap().total_votes, 1);
    assert_eq!(registry.candidate(1, &text("Alice")).unwrap().candidate_votes, 1);
    assert_eq!(registry.candidate(1, &text("Bob")).unwrap().candidate_votes, 0);
}

#[test]
fn voter_who_has_voted_is_refused_before_the_time_is_checked() {
    let mut registry = two_candidates();
    registry.vote(who(1), 1, text("Alice"), 1500).unwrap();
    assert_eq!(
        failure(registry.vote(who(1), 1, text("Alice"), 10)),
        VotingError::AlreadyVoted
    );
    assert_eq!(
        failure(registry.vote(who(1), 1, text("Alice"), 5000)),
        VotingError::AlreadyVoted
    );
}

#[test]
fn missing_candidate_is_reported_before_a_second_vote() {
    let mut registry = two_candidates();
    registry.vote(who(1), 1, text("Alice"), 1500).unwrap();
    assert_eq!(
        failure(registry.vote(who(1), 1, text("Zed"), 1500)),
        VotingError::CandidateNotFound
    );
}

#[test]
fn one_voter_may_vote_in_several_polls() {
    let mut registry = two_candidates();
    registry
        .initialize_poll(who(9), 2, text("Second"), 1000, 2000, 500)
        .unwrap();
    registry.initialize_candidate(who(9), 2, text("Carol")).unwrap();
    registry.vote(who(1), 1, text("Alice"), 1500).unwrap();
    registry.vote(who(1), 2, text("Carol"), 1500).unwrap();
    assert_eq!(registry.poll(1).unwrap().total_votes, 1);
    assert_eq!(registry.poll(2).unwrap().total_votes, 1);
    assert_eq!(
        registry.voter_record(&who(1), 2),
        Some(VoterRecord { voted: true, poll: 2 })
    );
}

#[test]
fn voters_differ_by_any_byte() {
    let mut registry = two_candidates();
    let mut bytes = [0u8; 32];
    registry.vote(Identity::new(bytes), 1, text("Alice"), 1500).unwrap();
    bytes[31] = 1;
    registry.vote(Identity::new(bytes), 1, text("Alice"), 1500).unwrap();
    bytes[31] = 0;
    bytes[0] = 1;
    registry.vote(Identity::new(bytes), 1, text("Alice"), 1500).unwrap();
    bytes[0] = 0;
    assert_eq!(
        failure(registry.vote(Identity::new(bytes), 1, text("Alice"), 1500)),
        VotingError::AlreadyVoted
    );
    assert_eq!(registry.poll(1).unwrap().total_votes, 3);
}

#[test]
fn total_equals_the_sum_of_candidate_votes() {
    let mut registry = two_candidates();
    registry.initialize_candidate(who(9), 1, text("Carol")).unwrap();
    registry
        .initialize_poll(who(9), 2, text("Elsewhere"), 1000, 2000, 500)
        .unwrap();
    registry.initialize_candidate(who(9), 2, text("Alice")).unwrap();
    for tag in 1u8..=7 {
        let name = match tag % 3 {
            0 => "Alice",
            1 => "Bob",
            _ => "Bob",
        };
        let receipt = registry.vote(who(tag), 1, text(name), 1000 + tag as u64).unwrap();
        assert_eq!(receipt.total_votes, tag as u64);
    }
    registry.vote(who(1), 2, text("Alice"), 1500).unwrap();
    let alice = registry.candidate(1, &text("Alice")).unwrap().candidate_votes;
    let bob = registry.candidate(1, &text("Bob")).unwrap().candidate_votes;
    let carol = registry.candidate(1, &text("Carol")).unwrap().candidate_votes;
    assert_eq!(alice, 2);
    assert_eq!(bob, 5);
    assert_eq!(carol, 0);
    assert_eq!(registry.poll(1).unwrap().total_votes, 7);
    assert_eq!(registry.poll(1).unwrap().total_votes, alice + bob + carol);
    assert_eq!(registry.votes_tallied(1), 7);
    assert_eq!(registry.ballots_cast(1), 7);
    assert_eq!(registry.votes_tallied(2), 1);
    assert_eq!(registry.ballots_cast(2), 1);
    assert_eq!(registry.votes_tallied(3), 0);
}

#[test]
fn refused_votes_do_not_disturb_the_tally() {
    let mut registry = two_candidates();
    registry.vote(who(1), 1, text("Alice"), 1500).unwrap();
    assert!(registry.vote(who(1), 1, text("Bob"), 1500).is_err());
    assert!(registry.vote(who(2), 1, text("Bob"), 999).is_err());
    assert!(registry.vote(who(2), 1, text("Bob"), 2001).is_err());
    assert!(registry.vote(who(2), 1, text("Nobody"), 1500).is_err());
    assert!(registry.vote(who(2), 3, text("Bob"), 1500).is_err());
    assert_eq!(registry.poll(1).unwrap().total_votes, 1);
    assert_eq!(registry.votes_tallied(1), 1);
    assert_eq!(registry.ballots_cast(1), 1);
    assert!(registry.voter_record(&who(2), 1).is_none());
    assert!(registry.vote(who(2), 1, text("Bob"), 1500).is_ok());
    assert_eq!(registry.votes_tallied(1), 2);
}

#[test]
fn empty_candidate_name_is_a_name_like_any_other() {
    let mut registry = two_candidates();
    registry.initialize_candidate(who(9), 1, String::new()).unwrap();
    assert_eq!(
        failure(registry.initialize_candidate(who(9), 1, String::new())),
        VotingError::DuplicateCandidate
    );
    let receipt = registry.vote(who(1), 1, String::new(), 1500).unwrap();
    assert_eq!(receipt.candidate_name, "");
    assert_eq!(receipt.candidate_votes, 1);
    assert_eq!(registry.poll(1).unwrap().candidate_amount, 3);
}

#[test]
fn poll_keeps_its_terms_while_its_counters_grow() {
    let mut registry = two_candidates();
    registry.vote(who(1), 1, text("Alice"), 1500).unwrap();
    registry.initialize_candidate(who(2), 1, text("Carol")).unwrap();
    registry.vote(who(2), 1, text("Carol"), 1700).unwrap();
    let _ = registry.initialize_poll(who(3), 1, text("Usurper"), 1, 2, 0);
    let poll = registry.poll(1).unwrap();
    assert_eq!(poll.poll_id, 1);
    assert_eq!(poll.description, "Best editor");
    assert_eq!(poll.poll_start, 1000);
    assert_eq!(poll.poll_end, 2000);
    assert_eq!(poll.candidate_amount, 3);
    assert_eq!(poll.total_votes, 2);
    let alice = registry.candidate(1, &text("Alice")).unwrap();
    assert_eq!(alice.candidate_name, "Alice");
    assert_eq!(alice.candidate_votes, 1);
}
