//! What holds of the registry whatever it is asked to do.

use vstd::prelude::*;
use crate::clock::valid_unix_timestamp;
use crate::error::VotingError;
use crate::ledger::{all_fit, poll_sound, Ledger, Request};
use crate::soundness::{
    lemma_candidate_found, lemma_initialize_candidate_well_formed,
    lemma_initialize_poll_well_formed, lemma_poll_found, lemma_vote_well_formed,
    lemma_voter_found,
};

verus! {

/// Every request leaves a well-formed registry well formed.
pub proof fn law_request_keeps_well_formed(ledger: Ledger, request: Request)
    requires
        ledger.well_formed(),
        request.fits(),
    ensures
        ledger.after(request).well_formed(),
{
    match request {
        Request::InitializePoll { poll_id, description, poll_start, poll_end, current_time } => {
            lemma_initialize_poll_well_formed(
                ledger,
                poll_id,
                description,
                poll_start,
                poll_end,
                current_time,
            );
        },
        Request::InitializeCandidate { poll_id, name } => {
            lemma_initialize_candidate_well_formed(ledger, poll_id, name);
        },
        Request::Vote { voter, poll_id, name, current_time } => {
            lemma_vote_well_formed(ledger, voter, poll_id, name, current_time);
        },
    }
}

/// Whatever requests a well-formed registry handles, it stays well formed.
pub proof fn law_history_keeps_well_formed(ledger: Ledger, requests: Seq<Request>)
    requires
        ledger.well_formed(),
        all_fit(requests),
    ensures
        ledger.after_all(requests).well_formed(),
    decreases requests.len(),
{
    if requests.len() > 0 {
        law_history_keeps_well_formed(ledger, requests.drop_last());
        law_request_keeps_well_formed(ledger.after_all(requests.drop_last()), requests.last());
    }
}

/// In a registry built from nothing by any requests, every poll's total
/// equals the sum of the votes of its candidates, and the number of voters
/// marked as having voted in it.
pub proof fn law_total_is_sum_of_candidate_votes(requests: Seq<Request>, poll_id: u64)
    requires
        all_fit(requests),
        Ledger::empty().after_all(requests).has_poll(poll_id),
    ensures
        ({
            let ledger = Ledger::empty().after_all(requests);
            &&& ledger.poll(poll_id).total_votes == ledger.votes_tallied(poll_id)
            &&& ledger.poll(poll_id).total_votes == ledger.ballots_cast(poll_id)
            &&& ledger.poll(poll_id).candidate_amount == ledger.candidates_of(poll_id)
        }),
{
    law_history_keeps_well_formed(Ledger::empty(), requests);
    law_counters_agree(Ledger::empty().after_all(requests), poll_id);
}

/// In a well-formed registry every poll's total equals the sum of the votes
/// of its candidates, and the number of voters marked as having voted in
/// it; its candidate count equals the number of its candidates.
pub proof fn law_counters_agree(ledger: Ledger, poll_id: u64)
    requires
        ledger.well_formed(),
        ledger.has_poll(poll_id),
    ensures
        ledger.poll(poll_id).total_votes == ledger.votes_tallied(poll_id),
        ledger.poll(poll_id).total_votes == ledger.ballots_cast(poll_id),
        ledger.poll(poll_id).candidate_amount == ledger.candidates_of(poll_id),
{
    assert(ledger.poll_at(ledger.poll_index(poll_id), poll_id));
}

/// A request never removes a poll, a candidate or a mark that a voter has
/// voted.
pub proof fn law_records_persist(ledger: Ledger, request: Request)
    requires
        ledger.well_formed(),
        request.fits(),
    ensures
        forall|poll_id: u64| #[trigger]
            ledger.has_poll(poll_id) ==> ledger.after(request).has_poll(poll_id),
        forall|poll_id: u64, name: Seq<char>| #[trigger]
            ledger.has_candidate(poll_id, name) ==> ledger.after(request).has_candidate(
                poll_id,
                name,
            ),
        forall|voter: Seq<u8>, poll_id: u64| #[trigger]
            ledger.has_voted(voter, poll_id) ==> ledger.after(request).has_voted(voter, poll_id),
{
    let next = ledger.after(request);
    law_request_keeps_well_formed(ledger, request);
    assert forall|poll_id: u64| #[trigger] ledger.has_poll(poll_id) implies next.has_poll(
        poll_id,
    ) by {
        assert(next.poll_at(ledger.poll_index(poll_id), poll_id));
    }
    assert forall|poll_id: u64, name: Seq<char>| #[trigger]
        ledger.has_candidate(poll_id, name) implies next.has_candidate(poll_id, name) by {
        assert(next.candidate_at(ledger.candidate_index(poll_id, name), poll_id, name));
    }
    assert forall|voter: Seq<u8>, poll_id: u64| #[trigger]
        ledger.has_voted(voter, poll_id) implies next.has_voted(voter, poll_id) by {
        lemma_voter_found(next, ledger.voter_index(voter, poll_id), voter, poll_id);
    }
}

/// A request changes nothing of an existing poll but its two counters and
/// nothing of an existing candidate but its votes, and no counter ever goes
/// down.
pub proof fn law_records_only_grow(ledger: Ledger, request: Request)
    requires
        ledger.well_formed(),
        request.fits(),
    ensures
        forall|poll_id: u64| #[trigger]
            ledger.has_poll(poll_id) ==> {
                let before = ledger.poll(poll_id);
                let after = ledger.after(request).poll(poll_id);
                &&& after.poll_id == before.poll_id
                &&& after.description == before.description
                &&& after.poll_start == before.poll_start
                &&& after.poll_end == before.poll_end
                &&& after.candidate_amount >= before.candidate_amount
                &&& after.total_votes >= before.total_votes
            },
        forall|poll_id: u64, name: Seq<char>| #[trigger]
            ledger.has_candidate(poll_id, name) ==> {
                let before = ledger.candidate(poll_id, name);
                let after = ledger.after(request).candidate(poll_id, name);
                &&& after.candidate_name == before.candidate_name
                &&& after.candidate_votes >= before.candidate_votes
            },
{
    let next = ledger.after(request);
    law_request_keeps_well_formed(ledger, request);
    assert forall|poll_id: u64| #[trigger] ledger.has_poll(poll_id) implies {
        let before = ledger.poll(poll_id);
        let after = next.poll(poll_id);
        &&& after.poll_id == before.poll_id
        &&& after.description == before.description
        &&& after.poll_start == before.poll_start
        &&& after.poll_end == before.poll_end
        &&& after.candidate_amount >= before.candidate_amount
        &&& after.total_votes >= before.total_votes
    } by {
        let at = ledger.poll_index(poll_id);
        assert(ledger.poll_at(at, poll_id));
        assert(next.poll_at(at, poll_id));
        lemma_poll_found(next, at, poll_id);
    }
    assert forall|poll_id: u64, name: Seq<char>| #[trigger]
        ledger.has_candidate(poll_id, name) implies {
        let before = ledger.candidate(poll_id, name);
        let after = next.candidate(poll_id, name);
        &&& after.candidate_name == before.candidate_name
        &&& after.candidate_votes >= before.candidate_votes
    } by {
        let chosen = ledger.candidate_index(poll_id, name);
        assert(ledger.candidate_at(chosen, poll_id, name));
        assert(next.candidate_at(chosen, poll_id, name));
        lemma_candidate_found(next, chosen, poll_id, name);
    }
}

/// A poll with times in range, a start before its end and an end still
/// ahead is created under any identifier that is free.
pub proof fn law_poll_is_created(
    ledger: Ledger,
    poll_id: u64,
    description: Seq<char>,
    poll_start: u64,
    poll_end: u64,
    current_time: u64,
)
    requires
        !ledger.has_poll(poll_id),
        valid_unix_timestamp(poll_start),
        valid_unix_timestamp(poll_end),
        poll_start < poll_end,
        current_time < poll_end,
    ensures
        ledger.initialize_poll(poll_id, description, poll_start, poll_end, current_time) is Ok,
        ledger.initialize_poll(
            poll_id,
            description,
            poll_start,
            poll_end,
            current_time,
        )->Ok_0.has_poll(poll_id),
{
    let next = ledger.initialize_poll(
        poll_id,
        description,
        poll_start,
        poll_end,
        current_time,
    )->Ok_0;
    assert(next.poll_at(ledger.polls.len() as int, poll_id));
}

/// An identifier that is taken cannot be given to another poll, whatever
/// the second call asks for.
pub proof fn law_poll_is_created_once(
    ledger: Ledger,
    poll_id: u64,
    description: Seq<char>,
    poll_start: u64,
    poll_end: u64,
    current_time: u64,
)
    requires
        ledger.has_poll(poll_id),
    ensures
        ledger.initialize_poll(poll_id, description, poll_start, poll_end, current_time) == Err::<
            Ledger,
            VotingError,
        >(VotingError::AlreadyExists),
{
}

/// Once a poll has been created, no later call creates it again, whatever
/// the registry has handled in between.
pub proof fn law_poll_stays_created(
    ledger: Ledger,
    poll_id: u64,
    between: Seq<Request>,
    description: Seq<char>,
    poll_start: u64,
    poll_end: u64,
    current_time: u64,
)
    requires
        ledger.well_formed(),
        ledger.has_poll(poll_id),
        all_fit(between),
    ensures
        ledger.after_all(between).initialize_poll(
            poll_id,
            description,
            poll_start,
            poll_end,
            current_time,
        ) == Err::<Ledger, VotingError>(VotingError::AlreadyExists),
{
    law_history_keeps_records(ledger, between);
}

/// Whatever requests a well-formed registry handles, it keeps its polls,
/// its candidates and the marks of its voters.
pub proof fn law_history_keeps_records(ledger: Ledger, requests: Seq<Request>)
    requires
        ledger.well_formed(),
        all_fit(requests),
    ensures
        forall|poll_id: u64| #[trigger]
            ledger.has_poll(poll_id) ==> ledger.after_all(requests).has_poll(poll_id),
        forall|poll_id: u64, name: Seq<char>| #[trigger]
            ledger.has_candidate(poll_id, name) ==> ledger.after_all(requests).has_candidate(
                poll_id,
                name,
            ),
        forall|voter: Seq<u8>, poll_id: u64| #[trigger]
            ledger.has_voted(voter, poll_id) ==> ledger.after_all(requests).has_voted(
                voter,
                poll_id,
            ),
    decreases requests.len(),
{
    if requests.len() > 0 {
        law_history_keeps_records(ledger, requests.drop_last());
        law_history_keeps_well_formed(ledger, requests.drop_last());
        law_records_persist(ledger.after_all(requests.drop_last()), requests.last());
    }
}

/// A poll that would end at or before the current time is refused with
/// `PollEndedInPast`, where its identifier is free and its times are in
/// range.
pub proof fn law_ended_poll_is_refused(
    ledger: Ledger,
    poll_id: u64,
    description: Seq<char>,
    poll_start: u64,
    poll_end: u64,
    current_time: u64,
)
    requires
        !ledger.has_poll(poll_id),
        valid_unix_timestamp(poll_start),
        valid_unix_timestamp(poll_end),
        poll_end <= current_time,
    ensures
        ledger.initialize_poll(poll_id, description, poll_start, poll_end, current_time) == Err::<
            Ledger,
            VotingError,
        >(VotingError::PollEndedInPast),
{
}

/// A candidate cannot be registered under a poll that does not exist.
pub proof fn law_candidate_needs_poll(ledger: Ledger, poll_id: u64, name: Seq<char>)
    requires
        !ledger.has_poll(poll_id),
    ensures
        ledger.initialize_candidate(poll_id, name) == Err::<Ledger, VotingError>(
            VotingError::PollNotFound,
        ),
{
}

/// A candidate cannot be registered twice under one poll.
pub proof fn law_candidate_is_registered_once(ledger: Ledger, poll_id: u64, name: Seq<char>)
    requires
        ledger.has_poll(poll_id),
        ledger.has_candidate(poll_id, name),
    ensures
        ledger.initialize_candidate(poll_id, name) == Err::<Ledger, VotingError>(
            VotingError::DuplicateCandidate,
        ),
{
}

/// Registering a new candidate under an existing poll raises that poll's
/// candidate count by exactly one and changes nothing else of any poll: all
/// totals, and the candidate counts of the other polls, stay as they were.
/// The new candidate has no votes, and the other candidates and all voter
/// records stay as they were.
pub proof fn law_candidate_is_counted(ledger: Ledger, poll_id: u64, name: Seq<char>)
    requires
        ledger.well_formed(),
        ledger.has_poll(poll_id),
        !ledger.has_candidate(poll_id, name),
    ensures
        ledger.initialize_candidate(poll_id, name) matches Ok(next) && {
            &&& next.poll(poll_id).candidate_amount == ledger.poll(poll_id).candidate_amount + 1
            &&& next.poll(poll_id).total_votes == ledger.poll(poll_id).total_votes
            &&& next.poll(poll_id) == ledger.poll(poll_id).with_candidate_added()
            &&& forall|other: u64|
                other != poll_id && ledger.has_poll(other) ==> #[trigger] next.poll(other)
                    == ledger.poll(other)
            &&& next.has_candidate(poll_id, name)
            &&& next.candidate(poll_id, name).candidate_votes == 0
            &&& forall|other: u64, known: Seq<char>| #[trigger]
                ledger.has_candidate(other, known) ==> next.has_candidate(other, known)
                    && next.candidate(other, known) == ledger.candidate(other, known)
            &&& next.voters == ledger.voters
        },
{
    let next = ledger.initialize_candidate(poll_id, name)->Ok_0;
    let at = ledger.poll_index(poll_id);
    lemma_registration_keeps_keys_distinct(ledger, poll_id, name);
    lemma_poll_found(next, at, poll_id);
    assert forall|other: u64| other != poll_id && ledger.has_poll(other) implies #[trigger]
        next.poll(other) == ledger.poll(other) by {
        let there = ledger.poll_index(other);
        lemma_poll_found(next, there, other);
    }
    let last = ledger.candidates.len() as int;
    lemma_candidate_found(next, last, poll_id, name);
    assert forall|other: u64, known: Seq<char>| #[trigger]
        ledger.has_candidate(other, known) implies next.has_candidate(other, known)
        && next.candidate(other, known) == ledger.candidate(other, known) by {
        let chosen = ledger.candidate_index(other, known);
        lemma_candidate_found(next, chosen, other, known);
    }
}

/// After the registration of a candidate, of whatever name, no two polls
/// share an identifier and no two candidates share poll and name.
proof fn lemma_registration_keeps_keys_distinct(ledger: Ledger, poll_id: u64, name: Seq<char>)
    requires
        ledger.well_formed(),
        ledger.has_poll(poll_id),
        !ledger.has_candidate(poll_id, name),
    ensures
        ledger.initialize_candidate(poll_id, name)->Ok_0.polls_distinct(),
        ledger.initialize_candidate(poll_id, name)->Ok_0.candidates_distinct(),
{
    let next = ledger.initialize_candidate(poll_id, name)->Ok_0;
    let last = ledger.candidates.len() as int;
    assert forall|i: int, j: int, id: u64| #[trigger]
        next.poll_at(i, id) && #[trigger] next.poll_at(j, id) implies i == j by {
        assert(ledger.poll_at(i, id) && ledger.poll_at(j, id));
    }
    assert forall|i: int, j: int, id: u64, n: Seq<char>| #[trigger]
        next.candidate_at(i, id, n) && #[trigger] next.candidate_at(j, id, n) implies i == j by {
        if i < last && j < last {
            assert(ledger.candidate_at(i, id, n) && ledger.candidate_at(j, id, n));
        } else if i < last {
            assert(ledger.candidate_at(i, poll_id, name));
        } else if j < last {
            assert(ledger.candidate_at(j, poll_id, name));
        }
    }
}

/// A ballot cast before the poll starts is refused with `PollNotStarted`,
/// and one cast after the poll ends with `PollEnded`, where the poll and
/// the candidate exist and the voter has not voted in the poll; either way
/// the registry, and with it every counter, stays exactly as it was. A
/// ballot cast within the window, both ends included, is accepted.
pub proof fn law_ballot_needs_open_poll(
    ledger: Ledger,
    voter: Seq<u8>,
    poll_id: u64,
    name: Seq<char>,
    current_time: u64,
)
    requires
        ledger.well_formed(),
        ledger.has_poll(poll_id),
        ledger.has_candidate(poll_id, name),
        !ledger.has_voted(voter, poll_id),
    ensures
        current_time < ledger.poll(poll_id).poll_start ==> ledger.vote(
            voter,
            poll_id,
            name,
            current_time,
        ) == Err::<Ledger, VotingError>(VotingError::PollNotStarted),
        current_time > ledger.poll(poll_id).poll_end ==> ledger.vote(
            voter,
            poll_id,
            name,
            current_time,
        ) == Err::<Ledger, VotingError>(VotingError::PollEnded),
        !ledger.poll(poll_id).is_open_at(current_time) ==> ledger.after(
            Request::Vote { voter, poll_id, name, current_time },
        ) == ledger,
        ledger.poll(poll_id).is_open_at(current_time) ==> ledger.vote(
            voter,
            poll_id,
            name,
            current_time,
        ) is Ok,
{
    assert(poll_sound(ledger.polls[ledger.poll_index(poll_id)]));
}

/// An accepted ballot raises the votes of the chosen candidate and the
/// total of its poll by exactly one each, marks the voter, and changes no
/// other poll, candidate or voter.
pub proof fn law_ballot_is_counted(
    ledger: Ledger,
    voter: Seq<u8>,
    poll_id: u64,
    name: Seq<char>,
    current_time: u64,
)
    requires
        ledger.well_formed(),
        ledger.vote(voter, poll_id, name, current_time) is Ok,
    ensures
        ({
            let next = ledger.vote(voter, poll_id, name, current_time)->Ok_0;
            &&& next.poll(poll_id) == ledger.poll(poll_id).with_vote_counted()
            &&& next.candidate(poll_id, name) == ledger.candidate(poll_id, name).with_vote_counted()
            &&& next.has_voted(voter, poll_id)
            &&& next.voter_record(voter, poll_id).poll == poll_id
            &&& forall|other: u64|
                other != poll_id && ledger.has_poll(other) ==> #[trigger] next.poll(other)
                    == ledger.poll(other)
            &&& forall|other: u64, known: Seq<char>|
                ledger.has_candidate(other, known) && !(other == poll_id && known == name)
                    ==> #[trigger] next.candidate(other, known) == ledger.candidate(other, known)
            &&& forall|someone: Seq<u8>, other: u64|
                !(someone == voter && other == poll_id) ==> #[trigger] next.voter_record(
                    someone,
                    other,
                ) == ledger.voter_record(someone, other)
        }),
{
    let next = ledger.vote(voter, poll_id, name, current_time)->Ok_0;
    let at = ledger.poll_index(poll_id);
    let chosen = ledger.candidate_index(poll_id, name);
    let last = ledger.voters.len() as int;
    lemma_vote_well_formed(ledger, voter, poll_id, name, current_time);
    lemma_poll_found(next, at, poll_id);
    lemma_candidate_found(next, chosen, poll_id, name);
    let slot = if ledger.has_voter_record(voter, poll_id) {
        ledger.voter_index(voter, poll_id)
    } else {
        last
    };
    lemma_voter_found(next, slot, voter, poll_id);
    assert forall|other: u64| other != poll_id && ledger.has_poll(other) implies #[trigger]
        next.poll(other) == ledger.poll(other) by {
        let there = ledger.poll_index(other);
        lemma_poll_found(next, there, other);
    }
    assert forall|other: u64, known: Seq<char>|
        ledger.has_candidate(other, known) && !(other == poll_id && known == name)
        implies #[trigger] next.candidate(other, known) == ledger.candidate(other, known) by {
        let there = ledger.candidate_index(other, known);
        lemma_candidate_found(next, there, other, known);
    }
    assert forall|someone: Seq<u8>, other: u64|
        !(someone == voter && other == poll_id) implies #[trigger] next.voter_record(
        someone,
        other,
    ) == ledger.voter_record(someone, other) by {
        if ledger.has_voter_record(someone, other) {
            let there = ledger.voter_index(someone, other);
            lemma_voter_found(next, there, someone, other);
        } else if next.has_voter_record(someone, other) {
            let there = next.voter_index(someone, other);
            if there < last {
                assert(ledger.voter_at(there, someone, other));
            }
        }
    }
}

/// After one accepted ballot, every further ballot of the same voter in the
/// same poll is refused with `AlreadyVoted`, whichever existing candidate it
/// names and whenever it is cast; being refused, it raises no counter.
pub proof fn law_one_ballot_per_voter(
    ledger: Ledger,
    voter: Seq<u8>,
    poll_id: u64,
    name: Seq<char>,
    current_time: u64,
    second_name: Seq<char>,
    second_time: u64,
)
    requires
        ledger.well_formed(),
        ledger.vote(voter, poll_id, name, current_time) is Ok,
        ledger.has_candidate(poll_id, second_name),
    ensures
        ({
            let next = ledger.vote(voter, poll_id, name, current_time)->Ok_0;
            &&& next.vote(voter, poll_id, second_name, second_time) == Err::<Ledger, VotingError>(
                VotingError::AlreadyVoted,
            )
            &&& next.after(
                Request::Vote {
                    voter,
                    poll_id,
                    name: second_name,
                    current_time: second_time,
                },
            ) == next
        }),
{
    let next = ledger.vote(voter, poll_id, name, current_time)->Ok_0;
    let request = Request::Vote { voter, poll_id, name, current_time };
    law_ballot_is_counted(ledger, voter, poll_id, name, current_time);
    law_records_persist(ledger, request);
}

/// A voter who has voted in a poll cannot vote in it again.
pub proof fn law_voter_votes_once(
    ledger: Ledger,
    voter: Seq<u8>,
    poll_id: u64,
    name: Seq<char>,
    current_time: u64,
)
    requires
        ledger.has_poll(poll_id),
        ledger.has_candidate(poll_id, name),
        ledger.has_voted(voter, poll_id),
    ensures
        ledger.vote(voter, poll_id, name, current_time) == Err::<Ledger, VotingError>(
            VotingError::AlreadyVoted,
        ),
{
}

/// A voter who has voted in a poll stays unable to vote in it again,
/// whatever the registry has handled in between.
pub proof fn law_vote_is_final(
    ledger: Ledger,
    voter: Seq<u8>,
    poll_id: u64,
    between: Seq<Request>,
    name: Seq<char>,
    current_time: u64,
)
    requires
        ledger.well_formed(),
        ledger.has_voted(voter, poll_id),
        all_fit(between),
        ledger.after_all(between).has_candidate(poll_id, name),
    ensures
        ledger.after_all(between).vote(voter, poll_id, name, current_time) == Err::<
            Ledger,
            VotingError,
        >(VotingError::AlreadyVoted),
{
    let slot = ledger.voter_index(voter, poll_id);
    law_history_keeps_records(ledger, between);
}

} // verus!
