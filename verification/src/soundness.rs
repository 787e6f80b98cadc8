//! Every operation keeps the registry's invariant.

use vstd::prelude::*;
use crate::counting::{
    lemma_ballots_absent, lemma_ballots_push, lemma_ballots_update, lemma_candidates_absent,
    lemma_candidates_push, lemma_candidates_update,
};
use crate::ledger::{CandidateEntryView, Ledger, VoterEntryView};
use crate::state::{candidate_name_fits, description_fits, CandidateView, VoterRecord};

verus! {

/// Where no two polls share an identifier, the poll found at a position is
/// the poll of its identifier.
pub proof fn lemma_poll_found(ledger: Ledger, i: int, poll_id: u64)
    requires
        ledger.polls_distinct(),
        ledger.poll_at(i, poll_id),
    ensures
        ledger.has_poll(poll_id),
        ledger.poll_index(poll_id) == i,
        ledger.poll(poll_id) == ledger.polls[i],
{
}

/// Where no two candidates share poll and name, the candidate found at a
/// position is the candidate of that poll and name.
pub proof fn lemma_candidate_found(ledger: Ledger, j: int, poll_id: u64, name: Seq<char>)
    requires
        ledger.candidates_distinct(),
        ledger.candidate_at(j, poll_id, name),
    ensures
        ledger.has_candidate(poll_id, name),
        ledger.candidate_index(poll_id, name) == j,
        ledger.candidate(poll_id, name) == ledger.candidates[j].candidate,
{
}

/// Where no two voter records share voter and poll, the record found at a
/// position is the record of that voter and poll.
pub proof fn lemma_voter_found(ledger: Ledger, k: int, voter: Seq<u8>, poll_id: u64)
    requires
        ledger.voters_distinct(),
        ledger.voter_at(k, voter, poll_id),
    ensures
        ledger.has_voter_record(voter, poll_id),
        ledger.voter_index(voter, poll_id) == k,
        ledger.voter_record(voter, poll_id) == ledger.voters[k].record,
{
}

/// Two ledgers whose poll records carry the same identifiers at the same
/// positions have the same polls.
proof fn lemma_same_poll_keys(before: Ledger, after: Ledger)
    requires
        before.polls.len() == after.polls.len(),
        forall|i: int|
            0 <= i < before.polls.len() ==> (#[trigger] before.polls[i]).poll_id
                == after.polls[i].poll_id,
    ensures
        forall|i: int, poll_id: u64|
            #[trigger] after.poll_at(i, poll_id) == before.poll_at(i, poll_id),
        forall|poll_id: u64| #[trigger] after.has_poll(poll_id) == before.has_poll(poll_id),
        before.polls_distinct() ==> after.polls_distinct(),
{
    assert forall|i: int, poll_id: u64| #[trigger]
        after.poll_at(i, poll_id) == before.poll_at(i, poll_id) by {}
    assert forall|poll_id: u64| #[trigger] after.has_poll(poll_id) == before.has_poll(poll_id) by {
        if before.has_poll(poll_id) {
            assert(after.poll_at(before.poll_index(poll_id), poll_id));
        }
    }
}

/// Two ledgers whose candidate records carry the same poll and name at the
/// same positions have the same candidates.
proof fn lemma_same_candidate_keys(before: Ledger, after: Ledger)
    requires
        before.candidates.len() == after.candidates.len(),
        forall|j: int|
            0 <= j < before.candidates.len() ==> {
                &&& (#[trigger] before.candidates[j]).poll_id == after.candidates[j].poll_id
                &&& before.candidates[j].candidate.candidate_name
                    == after.candidates[j].candidate.candidate_name
            },
    ensures
        forall|j: int, poll_id: u64, name: Seq<char>|
            #[trigger] after.candidate_at(j, poll_id, name) == before.candidate_at(
                j,
                poll_id,
                name,
            ),
        before.candidates_distinct() ==> after.candidates_distinct(),
{
    assert forall|j: int, poll_id: u64, name: Seq<char>| #[trigger]
        after.candidate_at(j, poll_id, name) == before.candidate_at(j, poll_id, name) by {}
}

/// Two ledgers whose voter records carry the same voter and poll at the
/// same positions have the same voters.
proof fn lemma_same_voter_keys(before: Ledger, after: Ledger)
    requires
        before.voters.len() == after.voters.len(),
        forall|k: int|
            0 <= k < before.voters.len() ==> {
                &&& (#[trigger] before.voters[k]).voter == after.voters[k].voter
                &&& before.voters[k].poll_id == after.voters[k].poll_id
            },
    ensures
        forall|k: int, voter: Seq<u8>, poll_id: u64|
            #[trigger] after.voter_at(k, voter, poll_id) == before.voter_at(k, voter, poll_id),
        before.voters_distinct() ==> after.voters_distinct(),
{
    assert forall|k: int, voter: Seq<u8>, poll_id: u64| #[trigger]
        after.voter_at(k, voter, poll_id) == before.voter_at(k, voter, poll_id) by {}
}

/// In a well-formed ledger nothing is stored under a poll that does not
/// exist.
pub proof fn lemma_nothing_under_missing_poll(ledger: Ledger, poll_id: u64)
    requires
        ledger.well_formed(),
        !ledger.has_poll(poll_id),
    ensures
        ledger.candidates_of(poll_id) == 0,
        ledger.votes_tallied(poll_id) == 0,
        ledger.ballots_cast(poll_id) == 0,
        forall|name: Seq<char>| !ledger.has_candidate(poll_id, name),
        forall|voter: Seq<u8>| !ledger.has_voter_record(voter, poll_id),
{
    lemma_candidates_absent(ledger.candidates, poll_id);
    lemma_ballots_absent(ledger.voters, poll_id);
}

/// The creation of a poll keeps the registry well formed.
pub proof fn lemma_initialize_poll_well_formed(
    ledger: Ledger,
    poll_id: u64,
    description: Seq<char>,
    poll_start: u64,
    poll_end: u64,
    current_time: u64,
)
    requires
        ledger.well_formed(),
        description_fits(description),
    ensures
        match ledger.initialize_poll(poll_id, description, poll_start, poll_end, current_time) {
            Ok(next) => next.well_formed(),
            Err(_) => true,
        },
{
    if let Ok(next) = ledger.initialize_poll(
        poll_id,
        description,
        poll_start,
        poll_end,
        current_time,
    ) {
        let last = ledger.polls.len() as int;
        assert forall|i: int, id: u64| #[trigger] next.poll_at(i, id) implies if i < last {
            ledger.poll_at(i, id)
        } else {
            i == last && id == poll_id
        } by {}
        assert forall|i: int, id: u64| #[trigger] ledger.poll_at(i, id) implies next.poll_at(
            i,
            id,
        ) by {}
        lemma_same_candidate_keys(ledger, next);
        lemma_same_voter_keys(ledger, next);
        assert(next.counters_agree()) by {
            lemma_nothing_under_missing_poll(ledger, poll_id);
            assert forall|i: int| 0 <= i < next.polls.len() implies {
                &&& (#[trigger] next.polls[i]).candidate_amount == next.candidates_of(
                    next.polls[i].poll_id,
                )
                &&& next.polls[i].total_votes == next.votes_tallied(next.polls[i].poll_id)
                &&& next.polls[i].total_votes == next.ballots_cast(next.polls[i].poll_id)
            } by {}
        }
    }
}

/// The registration of a candidate keeps the registry well formed.
pub proof fn lemma_initialize_candidate_well_formed(ledger: Ledger, poll_id: u64, name: Seq<char>)
    requires
        ledger.well_formed(),
        candidate_name_fits(name),
    ensures
        match ledger.initialize_candidate(poll_id, name) {
            Ok(next) => next.well_formed(),
            Err(_) => true,
        },
{
    if let Ok(next) = ledger.initialize_candidate(poll_id, name) {
        let last = ledger.candidates.len() as int;
        let entry = CandidateEntryView { poll_id, candidate: CandidateView::fresh(name) };
        lemma_same_poll_keys(ledger, next);
        lemma_same_voter_keys(ledger, next);
        assert forall|j: int, id: u64, n: Seq<char>| #[trigger]
            next.candidate_at(j, id, n) implies if j < last {
            ledger.candidate_at(j, id, n)
        } else {
            j == last && id == poll_id && n == name
        } by {}
        assert(next.counters_agree()) by {
            assert forall|i: int| 0 <= i < next.polls.len() implies {
                &&& (#[trigger] next.polls[i]).candidate_amount == next.candidates_of(
                    next.polls[i].poll_id,
                )
                &&& next.polls[i].total_votes == next.votes_tallied(next.polls[i].poll_id)
                &&& next.polls[i].total_votes == next.ballots_cast(next.polls[i].poll_id)
            } by {
                let id = ledger.polls[i].poll_id;
                assert(ledger.poll_at(i, id));
                lemma_candidates_push(ledger.candidates, entry, id);
            }
        }
    }
}

/// A ballot keeps the registry well formed.
pub proof fn lemma_vote_well_formed(
    ledger: Ledger,
    voter: Seq<u8>,
    poll_id: u64,
    name: Seq<char>,
    current_time: u64,
)
    requires
        ledger.well_formed(),
    ensures
        match ledger.vote(voter, poll_id, name, current_time) {
            Ok(next) => next.well_formed(),
            Err(_) => true,
        },
{
    if let Ok(next) = ledger.vote(voter, poll_id, name, current_time) {
        let chosen = ledger.candidate_index(poll_id, name);
        let counted = CandidateEntryView {
            poll_id,
            candidate: ledger.candidate(poll_id, name).with_vote_counted(),
        };
        let marked = VoterEntryView { voter, poll_id, record: VoterRecord::marked(poll_id) };
        let known = ledger.has_voter_record(voter, poll_id);
        let slot = ledger.voter_index(voter, poll_id);
        let last = ledger.voters.len() as int;
        lemma_same_poll_keys(ledger, next);
        lemma_same_candidate_keys(ledger, next);
        if known {
            lemma_same_voter_keys(ledger, next);
        } else {
            assert forall|k: int, v: Seq<u8>, id: u64| #[trigger]
                next.voter_at(k, v, id) implies if k < last {
                ledger.voter_at(k, v, id)
            } else {
                k == last && v == voter && id == poll_id
            } by {}
        }
        assert(next.counters_agree()) by {
            assert forall|i: int| 0 <= i < next.polls.len() implies {
                &&& (#[trigger] next.polls[i]).candidate_amount == next.candidates_of(
                    next.polls[i].poll_id,
                )
                &&& next.polls[i].total_votes == next.votes_tallied(next.polls[i].poll_id)
                &&& next.polls[i].total_votes == next.ballots_cast(next.polls[i].poll_id)
            } by {
                let id = ledger.polls[i].poll_id;
                assert(ledger.poll_at(i, id));
                lemma_candidates_update(ledger.candidates, chosen, counted, id);
                if known {
                    lemma_ballots_update(ledger.voters, slot, marked, id);
                } else {
                    lemma_ballots_push(ledger.voters, marked, id);
                }
            }
        }
    }
}

} // verus!
