//! The reasons for which an operation is refused.

use vstd::prelude::*;

verus! {

/// Why an operation of the voting registry was refused.
///
/// Every failure is terminal for the call that met it and leaves all records
/// as they were.
#[derive(Clone, Copy, Debug, PartialEq, Eq, Structural)]
pub enum VotingError {
    /// A ballot arrived before the poll's start time.
    PollNotStarted,
    /// A ballot arrived after the poll's end time.
    PollEnded,
    /// A poll's start or end time lies outside the accepted range.
    InvalidTimestamp,
    /// A poll would end at or before the current time.
    PollEndedInPast,
    /// A poll would start at or after its end time.
    InvalidPollDuration,
    /// The voter has already cast a ballot in this poll.
    AlreadyVoted,
    /// A poll with this identifier is already registered.
    AlreadyExists,
    /// The poll already has a candidate of this name.
    DuplicateCandidate,
    /// No poll with this identifier is registered.
    PollNotFound,
    /// The poll has no candidate of this name.
    CandidateNotFound,
    /// The runtime could not provide the current time.
    ClockUnavailable,
}

impl VotingError {
    /// The human-readable text of this error, as a spec value.
    pub open spec fn spec_message(self) -> Seq<char> {
        match self {
            VotingError::PollNotStarted => "The poll has not started yet"@,
            VotingError::PollEnded => "The poll has already ended"@,
            VotingError::InvalidTimestamp => "Invalid timestamp provided"@,
            VotingError::PollEndedInPast => "Poll end time must be in the future"@,
            VotingError::InvalidPollDuration => "Poll start time must be before end time"@,
            VotingError::AlreadyVoted => "This address has already voted for this poll"@,
            VotingError::AlreadyExists => "A poll with this id already exists"@,
            VotingError::DuplicateCandidate => {
                "This candidate is already registered for this poll"@
            },
            VotingError::PollNotFound => "The poll does not exist"@,
            VotingError::CandidateNotFound => "The candidate does not exist in this poll"@,
            VotingError::ClockUnavailable => "The current time is not available"@,
        }
    }

    /// The human-readable text of this error.
    pub fn message(&self) -> (text: &'static str)
        ensures
            text@ == self.spec_message(),
    {
        match self {
            VotingError::PollNotStarted => "The poll has not started yet",
            VotingError::PollEnded => "The poll has already ended",
            VotingError::InvalidTimestamp => "Invalid timestamp provided",
            VotingError::PollEndedInPast => "Poll end time must be in the future",
            VotingError::InvalidPollDuration => "Poll start time must be before end time",
            VotingError::AlreadyVoted => "This address has already voted for this poll",
            VotingError::AlreadyExists => "A poll with this id already exists",
            VotingError::DuplicateCandidate => "This candidate is already registered for this poll",
            VotingError::PollNotFound => "The poll does not exist",
            VotingError::CandidateNotFound => "The candidate does not exist in this poll",
            VotingError::ClockUnavailable => "The current time is not available",
        }
    }
}

} // verus!
