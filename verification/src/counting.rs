//! How the counts and tallies of a poll change when a record is added or
//! replaced.

use vstd::prelude::*;
use crate::ledger::{
    ballot_weight, ballot_weights, candidate_weight, candidate_weights, count_ballots,
    count_candidates, tally_votes, vote_weight, vote_weights, CandidateEntryView,
    VoterEntryView,
};
use crate::tally::{
    lemma_total_bounded, lemma_total_covers, lemma_total_push, lemma_total_update,
};

verus! {

/// A new candidate entry adds its own weight to the count and to the tally
/// of every poll.
pub proof fn lemma_candidates_push(
    entries: Seq<CandidateEntryView>,
    entry: CandidateEntryView,
    poll_id: u64,
)
    ensures
        count_candidates(entries.push(entry), poll_id) == count_candidates(entries, poll_id)
            + candidate_weight(entry, poll_id),
        tally_votes(entries.push(entry), poll_id) == tally_votes(entries, poll_id) + vote_weight(
            entry,
            poll_id,
        ),
{
    assert(candidate_weights(entries.push(entry), poll_id) =~= candidate_weights(
        entries,
        poll_id,
    ).push(candidate_weight(entry, poll_id)));
    lemma_total_push(candidate_weights(entries, poll_id), candidate_weight(entry, poll_id));
    assert(vote_weights(entries.push(entry), poll_id) =~= vote_weights(entries, poll_id).push(
        vote_weight(entry, poll_id),
    ));
    lemma_total_push(vote_weights(entries, poll_id), vote_weight(entry, poll_id));
}

/// A replaced candidate entry trades its old weight for its new one in the
/// count and in the tally of every poll.
pub proof fn lemma_candidates_update(
    entries: Seq<CandidateEntryView>,
    j: int,
    entry: CandidateEntryView,
    poll_id: u64,
)
    requires
        0 <= j < entries.len(),
    ensures
        count_candidates(entries.update(j, entry), poll_id) + candidate_weight(entries[j], poll_id)
            == count_candidates(entries, poll_id) + candidate_weight(entry, poll_id),
        tally_votes(entries.update(j, entry), poll_id) + vote_weight(entries[j], poll_id)
            == tally_votes(entries, poll_id) + vote_weight(entry, poll_id),
{
    assert(candidate_weights(entries.update(j, entry), poll_id) =~= candidate_weights(
        entries,
        poll_id,
    ).update(j, candidate_weight(entry, poll_id)));
    lemma_total_update(candidate_weights(entries, poll_id), j, candidate_weight(entry, poll_id));
    assert(vote_weights(entries.update(j, entry), poll_id) =~= vote_weights(
        entries,
        poll_id,
    ).update(j, vote_weight(entry, poll_id)));
    lemma_total_update(vote_weights(entries, poll_id), j, vote_weight(entry, poll_id));
}

/// A poll has at most as many candidates as there are entries, and its
/// tally is at least the votes of each of its candidates.
pub proof fn lemma_candidates_bounds(entries: Seq<CandidateEntryView>, j: int, poll_id: u64)
    requires
        0 <= j < entries.len(),
    ensures
        count_candidates(entries, poll_id) <= entries.len(),
        vote_weight(entries[j], poll_id) <= tally_votes(entries, poll_id),
{
    lemma_total_bounded(candidate_weights(entries, poll_id), 1);
    lemma_total_covers(vote_weights(entries, poll_id), j);
}

/// A poll under which no entry is stored has no candidates and no votes.
pub proof fn lemma_candidates_absent(entries: Seq<CandidateEntryView>, poll_id: u64)
    requires
        forall|n: int| 0 <= n < entries.len() ==> (#[trigger] entries[n]).poll_id != poll_id,
    ensures
        count_candidates(entries, poll_id) == 0,
        tally_votes(entries, poll_id) == 0,
{
    lemma_total_bounded(candidate_weights(entries, poll_id), 0);
    lemma_total_bounded(vote_weights(entries, poll_id), 0);
}

/// A new voter entry adds its own weight to the ballots of every poll.
pub proof fn lemma_ballots_push(entries: Seq<VoterEntryView>, entry: VoterEntryView, poll_id: u64)
    ensures
        count_ballots(entries.push(entry), poll_id) == count_ballots(entries, poll_id)
            + ballot_weight(entry, poll_id),
{
    assert(ballot_weights(entries.push(entry), poll_id) =~= ballot_weights(entries, poll_id).push(
        ballot_weight(entry, poll_id),
    ));
    lemma_total_push(ballot_weights(entries, poll_id), ballot_weight(entry, poll_id));
}

/// A replaced voter entry trades its old weight for its new one in the
/// ballots of every poll.
pub proof fn lemma_ballots_update(
    entries: Seq<VoterEntryView>,
    k: int,
    entry: VoterEntryView,
    poll_id: u64,
)
    requires
        0 <= k < entries.len(),
    ensures
        count_ballots(entries.update(k, entry), poll_id) + ballot_weight(entries[k], poll_id)
            == count_ballots(entries, poll_id) + ballot_weight(entry, poll_id),
{
    assert(ballot_weights(entries.update(k, entry), poll_id) =~= ballot_weights(
        entries,
        poll_id,
    ).update(k, ballot_weight(entry, poll_id)));
    lemma_total_update(ballot_weights(entries, poll_id), k, ballot_weight(entry, poll_id));
}

/// A poll has at most as many ballots as there are voter entries.
pub proof fn lemma_ballots_bounds(entries: Seq<VoterEntryView>, poll_id: u64)
    ensures
        count_ballots(entries, poll_id) <= entries.len(),
{
    lemma_total_bounded(ballot_weights(entries, poll_id), 1);
}

/// A poll under which no voter entry is stored has no ballots.
pub proof fn lemma_ballots_absent(entries: Seq<VoterEntryView>, poll_id: u64)
    requires
        forall|n: int| 0 <= n < entries.len() ==> (#[trigger] entries[n]).poll_id != poll_id,
    ensures
        count_ballots(entries, poll_id) == 0,
{
    lemma_total_bounded(ballot_weights(entries, poll_id), 0);
}

} // verus!
