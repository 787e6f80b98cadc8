//! The three instructions, each working on the records that the store has
//! resolved for it.

use vstd::prelude::*;
use crate::clock::{current_time, is_valid_unix_timestamp, valid_unix_timestamp};
use crate::error::VotingError;
use crate::state::{
    candidate_name_fits, description_fits, Candidate, CandidateView, Identity, Poll, PollView,
    VoterRecord,
};

verus! {

/// The records that the creation of a poll works on: the poll record that
/// the store has allocated for it.
#[derive(Debug)]
pub struct InitializePoll {
    pub signer: Identity,
    pub poll: Poll,
}

/// The records that the registration of a candidate works on: the poll it
/// joins and the candidate record that the store has allocated for it.
#[derive(Debug)]
pub struct InitializeCandidate {
    pub signer: Identity,
    pub poll: Poll,
    pub candidate: Candidate,
}

/// The records that a ballot works on: the poll, the chosen candidate and
/// the signer's voter record for that poll.
#[derive(Debug)]
pub struct Vote {
    pub signer: Identity,
    pub poll: Poll,
    pub candidate: Candidate,
    pub voter_record: VoterRecord,
}

impl PollView {
    /// This poll with one more candidate registered.
    pub open spec fn with_candidate_added(self) -> PollView {
        PollView { candidate_amount: self.candidate_amount + 1, ..self }
    }

    /// This poll with one more ballot counted.
    pub open spec fn with_vote_counted(self) -> PollView {
        PollView { total_votes: self.total_votes + 1, ..self }
    }
}

impl CandidateView {
    /// This candidate with one more ballot counted.
    pub open spec fn with_vote_counted(self) -> CandidateView {
        CandidateView { candidate_votes: self.candidate_votes + 1, ..self }
    }
}

impl VoterRecord {
    /// The record of a voter who has cast a ballot in poll `poll_id`.
    pub open spec fn marked(poll_id: u64) -> VoterRecord {
        VoterRecord { voted: true, poll: poll_id }
    }
}

/// Why a poll with this window cannot be created at `current_time`, if
/// anything forbids it. The checks are made in this order: both times in
/// range, the end still ahead, the start before the end.
pub open spec fn poll_window_error(poll_start: u64, poll_end: u64, current_time: u64) -> Option<
    VotingError,
> {
    if !valid_unix_timestamp(poll_start) || !valid_unix_timestamp(poll_end) {
        Some(VotingError::InvalidTimestamp)
    } else if poll_end <= current_time {
        Some(VotingError::PollEndedInPast)
    } else if poll_start >= poll_end {
        Some(VotingError::InvalidPollDuration)
    } else {
        None
    }
}

/// Why a voter with this record cannot cast a ballot in `poll` at
/// `current_time`, if anything forbids it. A voter who has voted is turned
/// away before the time is looked at.
pub open spec fn ballot_error(poll: PollView, record: VoterRecord, current_time: u64) -> Option<
    VotingError,
> {
    if record.voted {
        Some(VotingError::AlreadyVoted)
    } else if current_time < poll.poll_start {
        Some(VotingError::PollNotStarted)
    } else if current_time > poll.poll_end {
        Some(VotingError::PollEnded)
    } else {
        None
    }
}

/// What the creation of a poll at `current_time` does to the poll record
/// and returns.
pub open spec fn initialize_poll_outcome(
    before: InitializePoll,
    after: InitializePoll,
    result: Result<(), VotingError>,
    poll_id: u64,
    description: Seq<char>,
    poll_start: u64,
    poll_end: u64,
    current_time: u64,
) -> bool {
    match poll_window_error(poll_start, poll_end, current_time) {
        Some(error) => result == Err::<(), VotingError>(error) && after == before,
        None => {
            &&& result is Ok
            &&& after.signer == before.signer
            &&& after.poll@ == PollView::fresh(poll_id, description, poll_start, poll_end)
        },
    }
}

/// What a ballot cast at `current_time` does to the records and returns.
pub open spec fn vote_outcome(
    before: Vote,
    after: Vote,
    result: Result<(), VotingError>,
    current_time: u64,
) -> bool {
    match ballot_error(before.poll@, before.voter_record, current_time) {
        Some(error) => result == Err::<(), VotingError>(error) && after == before,
        None => {
            &&& result is Ok
            &&& after.signer == before.signer
            &&& after.poll@ == before.poll@.with_vote_counted()
            &&& after.candidate@ == before.candidate@.with_vote_counted()
            &&& after.voter_record == VoterRecord::marked(before.poll.poll_id)
        },
    }
}

impl Vote {
    /// Whether both counters that a ballot increments can still grow.
    pub open spec fn has_room(self) -> bool {
        self.poll.total_votes < u64::MAX && self.candidate.candidate_votes < u64::MAX
    }
}

/// Creates the poll `poll_id` in the record of `ctx`, as of `current_time`.
///
/// The window is checked first; on any error the record is left as it was.
/// On success the record holds the new poll with both counters at zero.
pub fn initialize_poll_at(
    ctx: &mut InitializePoll,
    poll_id: u64,
    description: String,
    poll_start: u64,
    poll_end: u64,
    current_time: u64,
) -> (result: Result<(), VotingError>)
    requires
        description_fits(description@),
    ensures
        initialize_poll_outcome(
            *old(ctx),
            *final(ctx),
            result,
            poll_id,
            description@,
            poll_start,
            poll_end,
            current_time,
        ),
{
    if !is_valid_unix_timestamp(poll_start) || !is_valid_unix_timestamp(poll_end) {
        return Err(VotingError::InvalidTimestamp);
    }
    if poll_end <= current_time {
        return Err(VotingError::PollEndedInPast);
    }
    if poll_start >= poll_end {
        return Err(VotingError::InvalidPollDuration);
    }
    ctx.poll.poll_id = poll_id;
    ctx.poll.description = description;
    ctx.poll.poll_start = poll_start;
    ctx.poll.poll_end = poll_end;
    ctx.poll.candidate_amount = 0;
    ctx.poll.total_votes = 0;
    Ok(())
}

/// Creates the poll `poll_id` in the record of `ctx`, as of the runtime's
/// clock.
///
/// Times out of range are refused before the clock is read. Where the
/// runtime has no clock the call fails with `ClockUnavailable`; otherwise
/// the outcome is that of [`initialize_poll_at`] at the time that was read.
pub fn initialize_poll(
    ctx: &mut InitializePoll,
    poll_id: u64,
    description: String,
    poll_start: u64,
    poll_end: u64,
) -> (result: Result<(), VotingError>)
    requires
        description_fits(description@),
    ensures
        !(valid_unix_timestamp(poll_start) && valid_unix_timestamp(poll_end)) ==> {
            &&& result == Err::<(), VotingError>(VotingError::InvalidTimestamp)
            &&& *final(ctx) == *old(ctx)
        },
        valid_unix_timestamp(poll_start) && valid_unix_timestamp(poll_end) ==> {
            ||| result == Err::<(), VotingError>(VotingError::ClockUnavailable) && *final(ctx)
                == *old(ctx)
            ||| exists|now: u64|
                initialize_poll_outcome(
                    *old(ctx),
                    *final(ctx),
                    result,
                    poll_id,
                    description@,
                    poll_start,
                    poll_end,
                    now,
                )
        },
{
    if !is_valid_unix_timestamp(poll_start) || !is_valid_unix_timestamp(poll_end) {
        return Err(VotingError::InvalidTimestamp);
    }
    match current_time() {
        None => Err(VotingError::ClockUnavailable),
        Some(now) => {
            let ghost text = description@;
            let result = initialize_poll_at(ctx, poll_id, description, poll_start, poll_end, now);
            assert(initialize_poll_outcome(
                *old(ctx),
                *ctx,
                result,
                poll_id,
                text,
                poll_start,
                poll_end,
                now,
            ));
            result
        },
    }
}

/// Registers the candidate `candidate_name` in the records of `ctx`: the
/// candidate record takes the name with no votes, and the poll counts one
/// more candidate. Registration is open at any time.
///
/// The poll identifier is the key under which the store found the poll; the
/// records themselves do not depend on it.
pub fn initialize_candidate(
    ctx: &mut InitializeCandidate,
    candidate_name: String,
    _poll_id: u64,
) -> (result: Result<(), VotingError>)
    requires
        candidate_name_fits(candidate_name@),
        old(ctx).poll.candidate_amount < u64::MAX,
    ensures
        result is Ok,
        final(ctx).signer == old(ctx).signer,
        final(ctx).candidate@ == CandidateView::fresh(candidate_name@),
        final(ctx).poll@ == old(ctx).poll@.with_candidate_added(),
{
    ctx.candidate.candidate_name = candidate_name;
    ctx.candidate.candidate_votes = 0;
    ctx.poll.candidate_amount += 1;
    Ok(())
}

/// Casts the signer's ballot for the candidate of `ctx`, as of
/// `current_time`.
///
/// A voter who has voted is refused, then a time outside the poll's window;
/// on any error the records are left as they were. On success the candidate
/// and the poll each count one more vote and the voter record is marked
/// with the poll, all together.
pub fn vote_at(ctx: &mut Vote, current_time: u64) -> (result: Result<(), VotingError>)
    requires
        ballot_error(old(ctx).poll@, old(ctx).voter_record, current_time) is None ==> old(
            ctx,
        ).has_room(),
    ensures
        vote_outcome(*old(ctx), *final(ctx), result, current_time),
{
    if ctx.voter_record.voted {
        return Err(VotingError::AlreadyVoted);
    }
    if current_time < ctx.poll.poll_start {
        return Err(VotingError::PollNotStarted);
    }
    if current_time > ctx.poll.poll_end {
        return Err(VotingError::PollEnded);
    }
    ctx.candidate.candidate_votes += 1;
    ctx.poll.total_votes += 1;
    ctx.voter_record.voted = true;
    ctx.voter_record.poll = ctx.poll.poll_id;
    Ok(())
}

/// Casts the signer's ballot for the candidate of `ctx`, as of the
/// runtime's clock.
///
/// A voter who has voted is refused before the clock is read. Where the
/// runtime has no clock the call fails with `ClockUnavailable`; otherwise
/// the outcome is that of [`vote_at`] at the time that was read.
///
/// The candidate name and the poll identifier are the keys under which the
/// store found the records; the records themselves do not depend on them.
pub fn vote(ctx: &mut Vote, _candidate_name: String, _poll_id: u64) -> (result: Result<
    (),
    VotingError,
>)
    requires
        !old(ctx).voter_record.voted ==> old(ctx).has_room(),
    ensures
        old(ctx).voter_record.voted ==> {
            &&& result == Err::<(), VotingError>(VotingError::AlreadyVoted)
            &&& *final(ctx) == *old(ctx)
        },
        !old(ctx).voter_record.voted ==> {
            ||| result == Err::<(), VotingError>(VotingError::ClockUnavailable) && *final(ctx)
                == *old(ctx)
            ||| exists|now: u64| vote_outcome(*old(ctx), *final(ctx), result, now)
        },
{
    if ctx.voter_record.voted {
        return Err(VotingError::AlreadyVoted);
    }
    match current_time() {
        None => Err(VotingError::ClockUnavailable),
        Some(now) => {
            let result = vote_at(ctx, now);
            assert(vote_outcome(*old(ctx), *ctx, result, now));
            result
        },
    }
}

} // verus!
