//! The registry as a mathematical value, and what each operation makes of
//! it.

use vstd::prelude::*;
use crate::clock::valid_unix_timestamp;
use crate::error::VotingError;
use crate::instructions::{ballot_error, poll_window_error};
use crate::state::{
    candidate_name_fits, description_fits, CandidateView, PollView, VoterRecord,
};
use crate::tally::total;

verus! {

/// A candidate record together with the poll it is stored under.
pub struct CandidateEntryView {
    pub poll_id: u64,
    pub candidate: CandidateView,
}

/// A voter record together with the voter and the poll it is stored under.
pub struct VoterEntryView {
    pub voter: Seq<u8>,
    pub poll_id: u64,
    pub record: VoterRecord,
}

/// The registry as a mathematical value: its three kinds of records, each
/// in the order of creation.
///
/// A poll is found by its identifier, a candidate by poll and name, a voter
/// record by voter and poll. The three kinds are kept apart, so a key of one
/// kind never meets a record of another.
#[verifier::ext_equal]
pub struct Ledger {
    pub polls: Seq<PollView>,
    pub candidates: Seq<CandidateEntryView>,
    pub voters: Seq<VoterEntryView>,
}

/// What a candidate entry adds to the number of candidates of poll
/// `poll_id`.
pub open spec fn candidate_weight(entry: CandidateEntryView, poll_id: u64) -> nat {
    if entry.poll_id == poll_id {
        1
    } else {
        0
    }
}

/// What a candidate entry adds to the votes of poll `poll_id`.
pub open spec fn vote_weight(entry: CandidateEntryView, poll_id: u64) -> nat {
    if entry.poll_id == poll_id {
        entry.candidate.candidate_votes
    } else {
        0
    }
}

/// What a voter entry adds to the ballots cast in poll `poll_id`.
pub open spec fn ballot_weight(entry: VoterEntryView, poll_id: u64) -> nat {
    if entry.poll_id == poll_id && entry.record.voted {
        1
    } else {
        0
    }
}

/// What each of `entries` adds to the number of candidates of poll
/// `poll_id`.
pub open spec fn candidate_weights(entries: Seq<CandidateEntryView>, poll_id: u64) -> Seq<nat> {
    Seq::new(entries.len(), |n: int| candidate_weight(entries[n], poll_id))
}

/// What each of `entries` adds to the votes of poll `poll_id`.
pub open spec fn vote_weights(entries: Seq<CandidateEntryView>, poll_id: u64) -> Seq<nat> {
    Seq::new(entries.len(), |n: int| vote_weight(entries[n], poll_id))
}

/// What each of `entries` adds to the ballots cast in poll `poll_id`.
pub open spec fn ballot_weights(entries: Seq<VoterEntryView>, poll_id: u64) -> Seq<nat> {
    Seq::new(entries.len(), |n: int| ballot_weight(entries[n], poll_id))
}

/// How many of `entries` are candidates of poll `poll_id`.
pub open spec fn count_candidates(entries: Seq<CandidateEntryView>, poll_id: u64) -> nat {
    total(candidate_weights(entries, poll_id))
}

/// The sum of the votes of those of `entries` that are candidates of poll
/// `poll_id`.
pub open spec fn tally_votes(entries: Seq<CandidateEntryView>, poll_id: u64) -> nat {
    total(vote_weights(entries, poll_id))
}

/// How many of `entries` record a ballot cast in poll `poll_id`.
pub open spec fn count_ballots(entries: Seq<VoterEntryView>, poll_id: u64) -> nat {
    total(ballot_weights(entries, poll_id))
}

/// Whether a poll on its own is sound: both times in range, the start
/// before the end, the description within its bound.
pub open spec fn poll_sound(poll: PollView) -> bool {
    &&& valid_unix_timestamp(poll.poll_start)
    &&& valid_unix_timestamp(poll.poll_end)
    &&& poll.poll_start < poll.poll_end
    &&& description_fits(poll.description)
}

impl Ledger {
    /// The registry with no records.
    pub open spec fn empty() -> Ledger {
        Ledger { polls: Seq::empty(), candidates: Seq::empty(), voters: Seq::empty() }
    }

    /// Whether the poll record at position `i` is that of poll `poll_id`.
    pub open spec fn poll_at(self, i: int, poll_id: u64) -> bool {
        0 <= i < self.polls.len() && self.polls[i].poll_id == poll_id
    }

    /// Whether poll `poll_id` exists.
    pub open spec fn has_poll(self, poll_id: u64) -> bool {
        exists|i: int| self.poll_at(i, poll_id)
    }

    /// The position of poll `poll_id`, where it exists.
    pub open spec fn poll_index(self, poll_id: u64) -> int {
        choose|i: int| self.poll_at(i, poll_id)
    }

    /// The record of poll `poll_id`, where it exists.
    pub open spec fn poll(self, poll_id: u64) -> PollView {
        self.polls[self.poll_index(poll_id)]
    }

    /// Whether the candidate record at position `j` is that of `name` in
    /// poll `poll_id`.
    pub open spec fn candidate_at(self, j: int, poll_id: u64, name: Seq<char>) -> bool {
        &&& 0 <= j < self.candidates.len()
        &&& self.candidates[j].poll_id == poll_id
        &&& self.candidates[j].candidate.candidate_name == name
    }

    /// Whether poll `poll_id` has a candidate called `name`.
    pub open spec fn has_candidate(self, poll_id: u64, name: Seq<char>) -> bool {
        exists|j: int| self.candidate_at(j, poll_id, name)
    }

    /// The position of candidate `name` of poll `poll_id`, where it exists.
    pub open spec fn candidate_index(self, poll_id: u64, name: Seq<char>) -> int {
        choose|j: int| self.candidate_at(j, poll_id, name)
    }

    /// The record of candidate `name` of poll `poll_id`, where it exists.
    pub open spec fn candidate(self, poll_id: u64, name: Seq<char>) -> CandidateView {
        self.candidates[self.candidate_index(poll_id, name)].candidate
    }

    /// Whether the voter record at position `k` is that of `voter` in poll
    /// `poll_id`.
    pub open spec fn voter_at(self, k: int, voter: Seq<u8>, poll_id: u64) -> bool {
        &&& 0 <= k < self.voters.len()
        &&& self.voters[k].voter == voter
        &&& self.voters[k].poll_id == poll_id
    }

    /// Whether `voter` has a record in poll `poll_id`.
    pub open spec fn has_voter_record(self, voter: Seq<u8>, poll_id: u64) -> bool {
        exists|k: int| self.voter_at(k, voter, poll_id)
    }

    /// The position of the record of `voter` in poll `poll_id`, where it
    /// exists.
    pub open spec fn voter_index(self, voter: Seq<u8>, poll_id: u64) -> int {
        choose|k: int| self.voter_at(k, voter, poll_id)
    }

    /// The record of `voter` in poll `poll_id`; the blank record where none
    /// is stored, as a voter's record comes into being with the first
    /// ballot.
    pub open spec fn voter_record(self, voter: Seq<u8>, poll_id: u64) -> VoterRecord {
        if self.has_voter_record(voter, poll_id) {
            self.voters[self.voter_index(voter, poll_id)].record
        } else {
            VoterRecord::blank()
        }
    }

    /// Whether `voter` has cast a ballot in poll `poll_id`.
    pub open spec fn has_voted(self, voter: Seq<u8>, poll_id: u64) -> bool {
        self.voter_record(voter, poll_id).voted
    }

    /// How many candidates are registered under poll `poll_id`.
    pub open spec fn candidates_of(self, poll_id: u64) -> nat {
        count_candidates(self.candidates, poll_id)
    }

    /// The sum of the votes of all candidates of poll `poll_id`.
    pub open spec fn votes_tallied(self, poll_id: u64) -> nat {
        tally_votes(self.candidates, poll_id)
    }

    /// How many voters have cast a ballot in poll `poll_id`.
    pub open spec fn ballots_cast(self, poll_id: u64) -> nat {
        count_ballots(self.voters, poll_id)
    }

    /// No two poll records share an identifier.
    pub open spec fn polls_distinct(self) -> bool {
        forall|i: int, j: int, poll_id: u64|
            #[trigger] self.poll_at(i, poll_id) && #[trigger] self.poll_at(j, poll_id) ==> i == j
    }

    /// No two candidate records share poll and name.
    pub open spec fn candidates_distinct(self) -> bool {
        forall|i: int, j: int, poll_id: u64, name: Seq<char>|
            #[trigger] self.candidate_at(i, poll_id, name) && #[trigger] self.candidate_at(
                j,
                poll_id,
                name,
            ) ==> i == j
    }

    /// No two voter records share voter and poll.
    pub open spec fn voters_distinct(self) -> bool {
        forall|i: int, j: int, voter: Seq<u8>, poll_id: u64|
            #[trigger] self.voter_at(i, voter, poll_id) && #[trigger] self.voter_at(
                j,
                voter,
                poll_id,
            ) ==> i == j
    }

    /// Every poll record is sound on its own.
    pub open spec fn polls_sound(self) -> bool {
        forall|i: int| 0 <= i < self.polls.len() ==> poll_sound(#[trigger] self.polls[i])
    }

    /// Every candidate belongs to an existing poll and has a name within
    /// the bound.
    pub open spec fn candidates_attached(self) -> bool {
        forall|j: int|
            0 <= j < self.candidates.len() ==> {
                &&& self.has_poll((#[trigger] self.candidates[j]).poll_id)
                &&& candidate_name_fits(self.candidates[j].candidate.candidate_name)
            }
    }

    /// Every voter record belongs to an existing poll, and one that is
    /// marked refers to the poll it is stored under.
    pub open spec fn voters_attached(self) -> bool {
        forall|k: int|
            0 <= k < self.voters.len() ==> {
                &&& self.has_poll((#[trigger] self.voters[k]).poll_id)
                &&& self.voters[k].record.voted ==> self.voters[k].record.poll
                    == self.voters[k].poll_id
            }
    }

    /// Every poll's counters agree with the records: its candidate count
    /// with the candidates stored under it, its total with the sum of their
    /// votes and with the number of voters marked as having voted.
    pub open spec fn counters_agree(self) -> bool {
        forall|i: int|
            0 <= i < self.polls.len() ==> {
                &&& (#[trigger] self.polls[i]).candidate_amount == self.candidates_of(
                    self.polls[i].poll_id,
                )
                &&& self.polls[i].total_votes == self.votes_tallied(self.polls[i].poll_id)
                &&& self.polls[i].total_votes == self.ballots_cast(self.polls[i].poll_id)
            }
    }

    /// The invariant of the registry.
    pub open spec fn well_formed(self) -> bool {
        &&& self.polls_distinct()
        &&& self.candidates_distinct()
        &&& self.voters_distinct()
        &&& self.polls_sound()
        &&& self.candidates_attached()
        &&& self.voters_attached()
        &&& self.counters_agree()
    }

    /// The registry after the creation of poll `poll_id` at `current_time`,
    /// or the reason why it is refused. An identifier that is taken is
    /// refused before the window is looked at.
    pub open spec fn initialize_poll(
        self,
        poll_id: u64,
        description: Seq<char>,
        poll_start: u64,
        poll_end: u64,
        current_time: u64,
    ) -> Result<Ledger, VotingError> {
        if self.has_poll(poll_id) {
            Err(VotingError::AlreadyExists)
        } else {
            match poll_window_error(poll_start, poll_end, current_time) {
                Some(error) => Err(error),
                None => Ok(
                    Ledger {
                        polls: self.polls.push(
                            PollView::fresh(poll_id, description, poll_start, poll_end),
                        ),
                        ..self
                    },
                ),
            }
        }
    }

    /// The registry after the registration of candidate `name` under poll
    /// `poll_id`, or the reason why it is refused.
    pub open spec fn initialize_candidate(self, poll_id: u64, name: Seq<char>) -> Result<
        Ledger,
        VotingError,
    > {
        if !self.has_poll(poll_id) {
            Err(VotingError::PollNotFound)
        } else if self.has_candidate(poll_id, name) {
            Err(VotingError::DuplicateCandidate)
        } else {
            Ok(
                Ledger {
                    polls: self.polls.update(
                        self.poll_index(poll_id),
                        self.poll(poll_id).with_candidate_added(),
                    ),
                    candidates: self.candidates.push(
                        CandidateEntryView { poll_id, candidate: CandidateView::fresh(name) },
                    ),
                    ..self
                },
            )
        }
    }

    /// The voter records after `voter` has cast a ballot in poll `poll_id`:
    /// the voter's record is marked, and created where there was none.
    pub open spec fn voters_after_ballot(self, voter: Seq<u8>, poll_id: u64) -> Seq<
        VoterEntryView,
    > {
        let entry = VoterEntryView { voter, poll_id, record: VoterRecord::marked(poll_id) };
        if self.has_voter_record(voter, poll_id) {
            self.voters.update(self.voter_index(voter, poll_id), entry)
        } else {
            self.voters.push(entry)
        }
    }

    /// The registry after `voter` has cast a ballot for candidate `name` of
    /// poll `poll_id` at `current_time`, or the reason why it is refused.
    /// The poll and the candidate are looked up first, then the voter's
    /// record, then the time.
    pub open spec fn vote(
        self,
        voter: Seq<u8>,
        poll_id: u64,
        name: Seq<char>,
        current_time: u64,
    ) -> Result<Ledger, VotingError> {
        if !self.has_poll(poll_id) {
            Err(VotingError::PollNotFound)
        } else if !self.has_candidate(poll_id, name) {
            Err(VotingError::CandidateNotFound)
        } else {
            match ballot_error(
                self.poll(poll_id),
                self.voter_record(voter, poll_id),
                current_time,
            ) {
                Some(error) => Err(error),
                None => Ok(
                    Ledger {
                        polls: self.polls.update(
                            self.poll_index(poll_id),
                            self.poll(poll_id).with_vote_counted(),
                        ),
                        candidates: self.candidates.update(
                            self.candidate_index(poll_id, name),
                            CandidateEntryView {
                                poll_id,
                                candidate: self.candidate(poll_id, name).with_vote_counted(),
                            },
                        ),
                        voters: self.voters_after_ballot(voter, poll_id),
                    },
                ),
            }
        }
    }
}

/// One call of the registry, with everything that decides its outcome.
pub enum Request {
    InitializePoll {
        poll_id: u64,
        description: Seq<char>,
        poll_start: u64,
        poll_end: u64,
        current_time: u64,
    },
    InitializeCandidate { poll_id: u64, name: Seq<char> },
    Vote { voter: Seq<u8>, poll_id: u64, name: Seq<char>, current_time: u64 },
}

impl Request {
    /// Whether the text that the request carries is within its bound.
    pub open spec fn fits(self) -> bool {
        match self {
            Request::InitializePoll { description, .. } => description_fits(description),
            Request::InitializeCandidate { name, .. } => candidate_name_fits(name),
            Request::Vote { .. } => true,
        }
    }
}

impl Ledger {
    /// The registry after `request`, or the reason why it is refused.
    pub open spec fn apply(self, request: Request) -> Result<Ledger, VotingError> {
        match request {
            Request::InitializePoll {
                poll_id,
                description,
                poll_start,
                poll_end,
                current_time,
            } => self.initialize_poll(poll_id, description, poll_start, poll_end, current_time),
            Request::InitializeCandidate { poll_id, name } => self.initialize_candidate(
                poll_id,
                name,
            ),
            Request::Vote { voter, poll_id, name, current_time } => self.vote(
                voter,
                poll_id,
                name,
                current_time,
            ),
        }
    }

    /// The registry once `request` has been handled: changed where the
    /// request succeeds, the same where it fails.
    pub open spec fn after(self, request: Request) -> Ledger {
        match self.apply(request) {
            Ok(next) => next,
            Err(_) => self,
        }
    }

    /// The registry once `requests` have been handled one after the other.
    pub open spec fn after_all(self, requests: Seq<Request>) -> Ledger
        decreases requests.len(),
    {
        if requests.len() == 0 {
            self
        } else {
            self.after_all(requests.drop_last()).after(requests.last())
        }
    }
}

/// Whether each of `requests` carries text within its bound.
pub open spec fn all_fit(requests: Seq<Request>) -> bool {
    forall|n: int| 0 <= n < requests.len() ==> (#[trigger] requests[n]).fits()
}

} // verus!
