//! The registry: a store of polls, candidates and voter records, and the
//! three operations on it.

use vstd::prelude::*;
use crate::counting::{
    lemma_ballots_bounds, lemma_ballots_push, lemma_ballots_update, lemma_candidates_bounds,
    lemma_candidates_push,
};
use crate::error::VotingError;
use crate::instructions::{
    initialize_candidate, initialize_poll_at, vote_at, InitializeCandidate, InitializePoll, Vote,
};
use crate::ledger::{
    count_ballots, tally_votes, vote_weights, CandidateEntryView, Ledger, VoterEntryView,
};
use crate::soundness::{
    lemma_candidate_found, lemma_initialize_candidate_well_formed,
    lemma_initialize_poll_well_formed, lemma_poll_found, lemma_vote_well_formed,
};
use crate::state::{
    candidate_name_fits, description_fits, Candidate, Identity, Poll, VoterRecord,
};
use crate::tally::lemma_total_prefix;

verus! {

/// Names a poll that was created.
#[derive(Clone, Copy, Debug, PartialEq, Eq, Structural)]
pub struct PollHandle {
    pub poll_id: u64,
}

/// Names a candidate that was registered.
#[derive(Debug)]
pub struct CandidateHandle {
    pub poll_id: u64,
    pub candidate_name: String,
}

/// Tells what a ballot was counted for and what the counters read after it.
#[derive(Debug)]
pub struct VoteReceipt {
    pub poll_id: u64,
    pub candidate_name: String,
    pub candidate_votes: u64,
    pub total_votes: u64,
}

/// A candidate record as stored: under the poll it belongs to.
struct CandidateEntry {
    poll_id: u64,
    candidate: Candidate,
}

/// A voter record as stored: under the voter and the poll it belongs to.
struct VoterEntry {
    voter: Identity,
    poll_id: u64,
    record: VoterRecord,
}

impl View for CandidateEntry {
    type V = CandidateEntryView;

    closed spec fn view(&self) -> CandidateEntryView {
        CandidateEntryView { poll_id: self.poll_id, candidate: self.candidate@ }
    }
}

impl View for VoterEntry {
    type V = VoterEntryView;

    closed spec fn view(&self) -> VoterEntryView {
        VoterEntryView { voter: self.voter@, poll_id: self.poll_id, record: self.record }
    }
}

/// The registry of polls, candidates and voter records.
///
/// Every operation either applies as a whole or fails and leaves all
/// records as they were.
pub struct VotingRegistry {
    polls: Vec<Poll>,
    candidates: Vec<CandidateEntry>,
    voters: Vec<VoterEntry>,
}

impl View for VotingRegistry {
    type V = Ledger;

    closed spec fn view(&self) -> Ledger {
        Ledger {
            polls: Seq::new(self.polls@.len(), |i: int| self.polls@[i]@),
            candidates: Seq::new(self.candidates@.len(), |j: int| self.candidates@[j]@),
            voters: Seq::new(self.voters@.len(), |k: int| self.voters@[k]@),
        }
    }
}

impl VotingRegistry {
    /// Whether the registry's invariant holds.
    pub open spec fn well_formed(&self) -> bool {
        self@.well_formed()
    }

    /// The registry with no records.
    pub fn new() -> (registry: VotingRegistry)
        ensures
            registry@ == Ledger::empty(),
            registry.well_formed(),
    {
        VotingRegistry { polls: Vec::new(), candidates: Vec::new(), voters: Vec::new() }
    }

    /// The position of poll `poll_id`, if it exists.
    fn find_poll(&self, poll_id: u64) -> (found: Option<usize>)
        ensures
            match found {
                Some(i) => self@.poll_at(i as int, poll_id),
                None => !self@.has_poll(poll_id),
            },
    {
        let mut i: usize = 0;
        while i < self.polls.len()
            invariant
                i <= self.polls.len(),
                forall|n: int| 0 <= n < i ==> !self@.poll_at(n, poll_id),
            decreases self.polls.len() - i,
        {
            if self.polls[i].poll_id == poll_id {
                return Some(i);
            }
            i += 1;
        }
        None
    }

    /// The position of candidate `name` of poll `poll_id`, if it exists.
    fn find_candidate(&self, poll_id: u64, name: &String) -> (found: Option<usize>)
        ensures
            match found {
                Some(j) => self@.candidate_at(j as int, poll_id, name@),
                None => !self@.has_candidate(poll_id, name@),
            },
    {
        let mut j: usize = 0;
        while j < self.candidates.len()
            invariant
                j <= self.candidates.len(),
                forall|n: int| 0 <= n < j ==> !self@.candidate_at(n, poll_id, name@),
            decreases self.candidates.len() - j,
        {
            if self.candidates[j].poll_id == poll_id && self.candidates[j].candidate.candidate_name
                == *name {
                return Some(j);
            }
            j += 1;
        }
        None
    }

    /// The position of the record of `voter` in poll `poll_id`, if it
    /// exists.
    fn find_voter(&self, voter: &Identity, poll_id: u64) -> (found: Option<usize>)
        ensures
            match found {
                Some(k) => self@.voter_at(k as int, voter@, poll_id),
                None => !self@.has_voter_record(voter@, poll_id),
            },
    {
        let mut k: usize = 0;
        while k < self.voters.len()
            invariant
                k <= self.voters.len(),
                forall|n: int| 0 <= n < k ==> !self@.voter_at(n, voter@, poll_id),
            decreases self.voters.len() - k,
        {
            if self.voters[k].poll_id == poll_id && self.voters[k].voter.same_as(voter) {
                return Some(k);
            }
            k += 1;
        }
        None
    }

    /// A copy of the record of poll `poll_id`, if it exists.
    pub fn poll(&self, poll_id: u64) -> (found: Option<Poll>)
        requires
            self.well_formed(),
        ensures
            match found {
                Some(poll) => self@.has_poll(poll_id) && poll@ == self@.poll(poll_id),
                None => !self@.has_poll(poll_id),
            },
    {
        match self.find_poll(poll_id) {
            Some(i) => Some(self.polls[i].clone()),
            None => None,
        }
    }

    /// A copy of the record of candidate `name` of poll `poll_id`, if it
    /// exists.
    pub fn candidate(&self, poll_id: u64, name: &String) -> (found: Option<Candidate>)
        requires
            self.well_formed(),
        ensures
            match found {
                Some(candidate) => self@.has_candidate(poll_id, name@) && candidate@
                    == self@.candidate(poll_id, name@),
                None => !self@.has_candidate(poll_id, name@),
            },
    {
        match self.find_candidate(poll_id, name) {
            Some(j) => Some(self.candidates[j].candidate.clone()),
            None => None,
        }
    }

    /// The record of `voter` in poll `poll_id`, if one is stored.
    pub fn voter_record(&self, voter: &Identity, poll_id: u64) -> (found: Option<VoterRecord>)
        requires
            self.well_formed(),
        ensures
            match found {
                Some(record) => self@.has_voter_record(voter@, poll_id) && record
                    == self@.voter_record(voter@, poll_id),
                None => !self@.has_voter_record(voter@, poll_id),
            },
    {
        match self.find_voter(voter, poll_id) {
            Some(k) => Some(self.voters[k].record),
            None => None,
        }
    }

    /// Tells whether `voter` has cast a ballot in poll `poll_id`.
    pub fn has_voted(&self, voter: &Identity, poll_id: u64) -> (voted: bool)
        requires
            self.well_formed(),
        ensures
            voted == self@.has_voted(voter@, poll_id),
    {
        match self.voter_record(voter, poll_id) {
            Some(record) => record.voted,
            None => false,
        }
    }

    /// The sum of the votes of all candidates of poll `poll_id`.
    pub fn votes_tallied(&self, poll_id: u64) -> (sum: u64)
        requires
            self.well_formed(),
        ensures
            sum == self@.votes_tallied(poll_id),
    {
        let mut sum: u64 = 0;
        let mut j: usize = 0;
        while j < self.candidates.len()
            invariant
                self.well_formed(),
                j <= self.candidates.len(),
                sum == tally_votes(self@.candidates.take(j as int), poll_id),
            decreases self.candidates.len() - j,
        {
            proof {
                let all = self@.candidates;
                let entry = all[j as int];
                assert(all.take(j + 1) =~= all.take(j as int).push(entry));
                lemma_candidates_push(all.take(j as int), entry, poll_id);
                assert(vote_weights(all.take(j + 1), poll_id) =~= vote_weights(all, poll_id).take(
                    j + 1,
                ));
                lemma_total_prefix(vote_weights(all, poll_id), j + 1);
                if entry.poll_id == poll_id {
                    assert(self@.poll_at(self@.poll_index(poll_id), poll_id));
                }
            }
            if self.candidates[j].poll_id == poll_id {
                sum += self.candidates[j].candidate.candidate_votes;
            }
            j += 1;
        }
        assert(self@.candidates.take(j as int) =~= self@.candidates);
        sum
    }

    /// How many voters have cast a ballot in poll `poll_id`.
    pub fn ballots_cast(&self, poll_id: u64) -> (count: u64)
        requires
            self.well_formed(),
        ensures
            count == self@.ballots_cast(poll_id),
    {
        let mut count: u64 = 0;
        let mut k: usize = 0;
        while k < self.voters.len()
            invariant
                self.well_formed(),
                k <= self.voters.len(),
                count == count_ballots(self@.voters.take(k as int), poll_id),
            decreases self.voters.len() - k,
        {
            proof {
                let all = self@.voters;
                let entry = all[k as int];
                assert(all.take(k + 1) =~= all.take(k as int).push(entry));
                lemma_ballots_push(all.take(k as int), entry, poll_id);
                lemma_ballots_bounds(all.take(k + 1), poll_id);
            }
            if self.voters[k].poll_id == poll_id && self.voters[k].record.voted {
                count += 1;
            }
            k += 1;
        }
        assert(self@.voters.take(k as int) =~= self@.voters);
        count
    }

    /// Creates poll `poll_id` on behalf of `signer`, as of `current_time`.
    ///
    /// Fails with `AlreadyExists` where the identifier is taken, else with
    /// the first of `InvalidTimestamp`, `PollEndedInPast` and
    /// `InvalidPollDuration` that applies. On success the registry holds
    /// one more poll, with no candidates and no votes.
    pub fn initialize_poll(
        &mut self,
        signer: Identity,
        poll_id: u64,
        description: String,
        poll_start: u64,
        poll_end: u64,
        current_time: u64,
    ) -> (result: Result<PollHandle, VotingError>)
        requires
            old(self).well_formed(),
            description_fits(description@),
        ensures
            final(self).well_formed(),
            match old(self)@.initialize_poll(
                poll_id,
                description@,
                poll_start,
                poll_end,
                current_time,
            ) {
                Ok(next) => final(self)@ == next && result == Ok::<PollHandle, VotingError>(
                    PollHandle { poll_id },
                ),
                Err(error) => final(self)@ == old(self)@ && result == Err::<
                    PollHandle,
                    VotingError,
                >(error),
            },
    {
        if self.find_poll(poll_id).is_some() {
            return Err(VotingError::AlreadyExists);
        }
        let mut ctx = InitializePoll { signer, poll: Poll::default() };
        let created = initialize_poll_at(
            &mut ctx,
            poll_id,
            description,
            poll_start,
            poll_end,
            current_time,
        );
        match created {
            Err(error) => Err(error),
            Ok(()) => {
                self.polls.push(ctx.poll);
                proof {
                    let next = old(self)@.initialize_poll(
                        poll_id,
                        description@,
                        poll_start,
                        poll_end,
                        current_time,
                    )->Ok_0;
                    assert(self@ =~= next);
                    lemma_initialize_poll_well_formed(
                        old(self)@,
                        poll_id,
                        description@,
                        poll_start,
                        poll_end,
                        current_time,
                    );
                }
                Ok(PollHandle { poll_id })
            },
        }
    }

    /// Registers candidate `candidate_name` under poll `poll_id` on behalf
    /// of `signer`. Registration is open at any time.
    ///
    /// Fails with `PollNotFound` where the poll does not exist, else with
    /// `DuplicateCandidate` where it has a candidate of that name. On
    /// success the registry holds one more candidate, with no votes, and
    /// the poll counts one more candidate.
    pub fn initialize_candidate(
        &mut self,
        signer: Identity,
        poll_id: u64,
        candidate_name: String,
    ) -> (result: Result<CandidateHandle, VotingError>)
        requires
            old(self).well_formed(),
            candidate_name_fits(candidate_name@),
        ensures
            final(self).well_formed(),
            match old(self)@.initialize_candidate(poll_id, candidate_name@) {
                Ok(next) => {
                    &&& final(self)@ == next
                    &&& result matches Ok(handle)
                    &&& handle.poll_id == poll_id
                    &&& handle.candidate_name@ == candidate_name@
                },
                Err(error) => {
                    &&& final(self)@ == old(self)@
                    &&& result matches Err(e)
                    &&& e == error
                },
            },
    {
        let at = match self.find_poll(poll_id) {
            Some(at) => at,
            None => {
                return Err(VotingError::PollNotFound);
            },
        };
        if self.find_candidate(poll_id, &candidate_name).is_some() {
            return Err(VotingError::DuplicateCandidate);
        }
        let last = self.candidates.len();
        self.candidates.push(CandidateEntry { poll_id, candidate: Candidate::default() });
        proof {
            let before = old(self)@;
            let blank = self@.candidates[last as int];
            assert(self@.candidates =~= before.candidates.push(blank));
            lemma_candidates_push(before.candidates, blank, poll_id);
            lemma_candidates_bounds(self@.candidates, last as int, poll_id);
            assert(self.candidates.len() == self@.candidates.len());
        }
        let mut ctx = InitializeCandidate {
            signer,
            poll: self.polls[at].clone(),
            candidate: Candidate::default(),
        };
        let _ = initialize_candidate(&mut ctx, candidate_name.clone(), poll_id);
        self.polls.set(at, ctx.poll);
        self.candidates.set(last, CandidateEntry { poll_id, candidate: ctx.candidate });
        proof {
            let next = old(self)@.initialize_candidate(poll_id, candidate_name@)->Ok_0;
            assert(self@ =~= next);
            lemma_initialize_candidate_well_formed(old(self)@, poll_id, candidate_name@);
        }
        Ok(CandidateHandle { poll_id, candidate_name })
    }

    /// Casts the ballot of `voter` for candidate `candidate_name` of poll
    /// `poll_id`, as of `current_time`.
    ///
    /// Fails with `PollNotFound` or `CandidateNotFound` where either is
    /// missing, else with `AlreadyVoted` where the voter has voted in this
    /// poll, else with `PollNotStarted` or `PollEnded` where the time lies
    /// outside the poll's window. On success the candidate and the poll
    /// each count one more vote and the voter's record is marked, created
    /// first where there was none.
    pub fn vote(
        &mut self,
        voter: Identity,
        poll_id: u64,
        candidate_name: String,
        current_time: u64,
    ) -> (result: Result<VoteReceipt, VotingError>)
        requires
            old(self).well_formed(),
        ensures
            final(self).well_formed(),
            match old(self)@.vote(voter@, poll_id, candidate_name@, current_time) {
                Ok(next) => {
                    &&& final(self)@ == next
                    &&& result matches Ok(receipt)
                    &&& receipt.poll_id == poll_id
                    &&& receipt.candidate_name@ == candidate_name@
                    &&& receipt.candidate_votes == next.candidate(
                        poll_id,
                        candidate_name@,
                    ).candidate_votes
                    &&& receipt.total_votes == next.poll(poll_id).total_votes
                },
                Err(error) => {
                    &&& final(self)@ == old(self)@
                    &&& result matches Err(e)
                    &&& e == error
                },
            },
    {
        let at = match self.find_poll(poll_id) {
            Some(at) => at,
            None => {
                return Err(VotingError::PollNotFound);
            },
        };
        let chosen = match self.find_candidate(poll_id, &candidate_name) {
            Some(chosen) => chosen,
            None => {
                return Err(VotingError::CandidateNotFound);
            },
        };
        let known = self.find_voter(&voter, poll_id);
        let slot = match known {
            Some(slot) => slot,
            None => {
                let slot = self.voters.len();
                self.voters.push(VoterEntry { voter, poll_id, record: VoterRecord::default() });
                slot
            },
        };
        let mut ctx = Vote {
            signer: voter,
            poll: self.polls[at].clone(),
            candidate: self.candidates[chosen].candidate.clone(),
            voter_record: self.voters[slot].record,
        };
        proof {
            let before = old(self)@;
            if known is None {
                assert(self@.voters =~= before.voters.push(self@.voters[slot as int]));
                lemma_ballots_push(before.voters, self@.voters[slot as int], poll_id);
            }
            if !ctx.voter_record.voted {
                assert(self.voters.len() == self@.voters.len());
                let marked = VoterEntryView {
                    voter: voter@,
                    poll_id,
                    record: VoterRecord::marked(poll_id),
                };
                lemma_ballots_update(self@.voters, slot as int, marked, poll_id);
                lemma_ballots_bounds(self@.voters.update(slot as int, marked), poll_id);
                lemma_candidates_bounds(before.candidates, chosen as int, poll_id);
            }
        }
        match vote_at(&mut ctx, current_time) {
            Err(error) => {
                if known.is_none() {
                    self.voters.pop();
                }
                assert(self@ =~= old(self)@);
                Err(error)
            },
            Ok(()) => {
                let receipt = VoteReceipt {
                    poll_id,
                    candidate_name,
                    candidate_votes: ctx.candidate.candidate_votes,
                    total_votes: ctx.poll.total_votes,
                };
                self.polls.set(at, ctx.poll);
                self.candidates.set(chosen, CandidateEntry { poll_id, candidate: ctx.candidate });
                self.voters.set(slot, VoterEntry { voter, poll_id, record: ctx.voter_record });
                proof {
                    let next = old(self)@.vote(
                        voter@,
                        poll_id,
                        candidate_name@,
                        current_time,
                    )->Ok_0;
                    assert(self@ =~= next);
                    lemma_vote_well_formed(
                        old(self)@,
                        voter@,
                        poll_id,
                        candidate_name@,
                        current_time,
                    );
                    lemma_poll_found(next, at as int, poll_id);
                    lemma_candidate_found(next, chosen as int, poll_id, candidate_name@);
                }
                Ok(receipt)
            },
        }
    }
}

} // verus!
