use voting::{
    fits_candidate_name, fits_description, is_valid_unix_timestamp, seconds_since_epoch, Candidate,
    Identity, Poll, VotingError, MAX_CANDIDATE_NAME_LEN, MAX_DESCRIPTION_LEN,
    MAX_REASONABLE_TIMESTAMP,
};

#[test]
fn timestamp_range_is_open_on_both_ends() {
    assert!(!is_valid_unix_timestamp(0));
    assert!(is_valid_unix_timestamp(1));
    assert!(is_valid_unix_timestamp(1_700_000_000));
    assert!(is_valid_unix_timestamp(1_893_455_999));
    assert!(!is_valid_unix_timestamp(1_893_456_000));
    assert!(!is_valid_unix_timestamp(u64::MAX));
    assert_eq!(MAX_REASONABLE_TIMESTAMP, 1_893_456_000);
}

#[test]
fn clock_value_is_read_as_unsigned() {
    assert_eq!(seconds_since_epoch(0), 0);
    assert_eq!(seconds_since_epoch(1500), 1500);
    assert_eq!(seconds_since_epoch(i64::MAX), 9_223_372_036_854_775_807);
    assert_eq!(seconds_since_epoch(-1), u64::MAX);
    assert_eq!(seconds_since_epoch(-1500), 18_446_744_073_709_550_116);
    assert_eq!(seconds_since_epoch(i64::MIN), 9_223_372_036_854_775_808);
}

#[test]
fn description_bound_counts_bytes() {
    assert_eq!(MAX_DESCRIPTION_LEN, 200);
    assert!(fits_description(""));
    assert!(fits_description(&"a".repeat(200)));
    assert!(!fits_description(&"a".repeat(201)));
    assert!(fits_description(&"\u{e9}".repeat(100)));
    assert!(!fits_description(&"\u{e9}".repeat(101)));
    assert!(fits_description(&"\u{1F600}".repeat(50)));
    assert!(!fits_description(&format!("{}a", "\u{1F600}".repeat(50))));
}

#[test]
fn candidate_name_bound_counts_bytes() {
    assert_eq!(MAX_CANDIDATE_NAME_LEN, 32);
    assert!(fits_candidate_name(""));
    assert!(fits_candidate_name(&"b".repeat(32)));
    assert!(!fits_candidate_name(&"b".repeat(33)));
    assert!(fits_candidate_name(&"\u{20AC}".repeat(10)));
    assert!(!fits_candidate_name(&"\u{20AC}".repeat(11)));
}

#[test]
fn identities_compare_by_their_bytes() {
    let a = Identity::new([5u8; 32]);
    let b = Identity::new([5u8; 32]);
    assert!(a.same_as(&b));
    assert!(a.same_as(&a));
    for at in 0..32 {
        let mut bytes = [5u8; 32];
        bytes[at] = 6;
        assert!(!a.same_as(&Identity::new(bytes)));
        assert!(!Identity::new(bytes).same_as(&a));
    }
    assert_eq!(a.bytes, [5u8; 32]);
}

#[test]
fn records_are_copied_field_by_field() {
    let poll = Poll {
        poll_id: 1,
        description: "Copy".to_string(),
        poll_start: 2,
        poll_end: 3,
        candidate_amount: 4,
        total_votes: 5,
    };
    let copy = poll.clone();
    assert_eq!(copy.poll_id, 1);
    assert_eq!(copy.description, "Copy");
    assert_eq!(copy.poll_start, 2);
    assert_eq!(copy.poll_end, 3);
    assert_eq!(copy.candidate_amount, 4);
    assert_eq!(copy.total_votes, 5);
    let candidate = Candidate { candidate_name: "Ann".to_string(), candidate_votes: 6 };
    let copy = candidate.clone();
    assert_eq!(copy.candidate_name, "Ann");
    assert_eq!(copy.candidate_votes, 6);
}

#[test]
fn every_error_has_its_message() {
    assert_eq!(VotingError::PollNotStarted.message(), "The poll has not started yet");
    assert_eq!(VotingError::PollEnded.message(), "The poll has already ended");
    assert_eq!(VotingError::InvalidTimestamp.message(), "Invalid timestamp provided");
    assert_eq!(
        VotingError::PollEndedInPast.message(),
        "Poll end time must be in the future"
    );
    assert_eq!(
        VotingError::InvalidPollDuration.message(),
        "Poll start time must be before end time"
    );
    assert_eq!(
        VotingError::AlreadyVoted.message(),
        "This address has already voted for this poll"
    );
    assert_eq!(VotingError::AlreadyExists.message(), "A poll with this id already exists");
    assert_eq!(
        VotingError::DuplicateCandidate.message(),
        "This candidate is already registered for this poll"
    );
    assert_eq!(VotingError::PollNotFound.message(), "The poll does not exist");
    assert_eq!(
        VotingError::CandidateNotFound.message(),
        "The candidate does not exist in this poll"
    );
    assert_eq!(VotingError::ClockUnavailable.message(), "The current time is not available");
}
