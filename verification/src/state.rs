//! The records that the registry keeps, and the bounds on their text.

use vstd::prelude::*;
use vstd::utf8::encode_utf8;

verus! {

/// The longest poll description, in bytes of UTF-8.
pub const MAX_DESCRIPTION_LEN: usize = 200;

/// The longest candidate name, in bytes of UTF-8.
pub const MAX_CANDIDATE_NAME_LEN: usize = 32;

/// The number of bytes in an identity.
pub const IDENTITY_LEN: usize = 32;

/// The number of bytes that `text` takes when encoded as UTF-8.
pub open spec fn utf8_len(text: Seq<char>) -> nat {
    encode_utf8(text).len()
}

/// Whether `text` is short enough to describe a poll.
pub open spec fn description_fits(text: Seq<char>) -> bool {
    utf8_len(text) <= MAX_DESCRIPTION_LEN
}

/// Whether `text` is short enough to name a candidate.
pub open spec fn candidate_name_fits(text: Seq<char>) -> bool {
    utf8_len(text) <= MAX_CANDIDATE_NAME_LEN
}

/// A text takes at most four bytes for each of its characters, so a text
/// of up to 50 characters can describe a poll and one of up to 8 can name a
/// candidate.
pub proof fn lemma_utf8_len_bound(text: Seq<char>)
    ensures
        utf8_len(text) <= 4 * text.len(),
        text.len() <= 50 ==> description_fits(text),
        text.len() <= 8 ==> candidate_name_fits(text),
    decreases text.len(),
{
    if text.len() > 0 {
        lemma_utf8_len_bound(text.drop_first());
    }
}

/// Tells whether `text` is short enough to describe a poll.
pub fn fits_description(text: &str) -> (fits: bool)
    ensures
        fits == description_fits(text@),
{
    text.as_bytes().len() <= MAX_DESCRIPTION_LEN
}

/// Tells whether `text` is short enough to name a candidate.
pub fn fits_candidate_name(text: &str) -> (fits: bool)
    ensures
        fits == candidate_name_fits(text@),
{
    text.as_bytes().len() <= MAX_CANDIDATE_NAME_LEN
}

/// The authenticated identity of whoever invokes an operation.
#[derive(Clone, Copy, Debug)]
pub struct Identity {
    pub bytes: [u8; 32],
}

impl View for Identity {
    type V = Seq<u8>;

    open spec fn view(&self) -> Seq<u8> {
        self.bytes@
    }
}

impl Identity {
    /// The identity made of `bytes`.
    pub fn new(bytes: [u8; 32]) -> (identity: Identity)
        ensures
            identity@ == bytes@,
    {
        Identity { bytes }
    }

    /// Tells whether two identities are the same principal.
    pub fn same_as(&self, other: &Identity) -> (same: bool)
        ensures
            same == (self@ == other@),
    {
        let mut i: usize = 0;
        while i < IDENTITY_LEN
            invariant
                i <= IDENTITY_LEN,
                forall|j: int| 0 <= j < i ==> self.bytes[j] == other.bytes[j],
            decreases IDENTITY_LEN - i,
        {
            if self.bytes[i] != other.bytes[i] {
                return false;
            }
            i += 1;
        }
        assert(self@ =~= other@);
        true
    }
}

/// A votable event with a time window.
#[derive(Debug)]
pub struct Poll {
    pub poll_id: u64,
    pub description: String,
    pub poll_start: u64,
    pub poll_end: u64,
    pub candidate_amount: u64,
    pub total_votes: u64,
}

/// What a [`Poll`] holds, as mathematical values.
pub struct PollView {
    pub poll_id: u64,
    pub description: Seq<char>,
    pub poll_start: u64,
    pub poll_end: u64,
    pub candidate_amount: nat,
    pub total_votes: nat,
}

impl View for Poll {
    type V = PollView;

    open spec fn view(&self) -> PollView {
        PollView {
            poll_id: self.poll_id,
            description: self.description@,
            poll_start: self.poll_start,
            poll_end: self.poll_end,
            candidate_amount: self.candidate_amount as nat,
            total_votes: self.total_votes as nat,
        }
    }
}

impl Clone for Poll {
    fn clone(&self) -> (copy: Poll)
        ensures
            copy == *self,
    {
        Poll {
            poll_id: self.poll_id,
            description: self.description.clone(),
            poll_start: self.poll_start,
            poll_end: self.poll_end,
            candidate_amount: self.candidate_amount,
            total_votes: self.total_votes,
        }
    }
}

impl Default for Poll {
    fn default() -> (poll: Poll)
        ensures
            poll@ == PollView::blank(),
    {
        Poll {
            poll_id: 0,
            description: String::new(),
            poll_start: 0,
            poll_end: 0,
            candidate_amount: 0,
            total_votes: 0,
        }
    }
}

impl PollView {
    /// A poll record as the store allocates it, before it is initialized.
    pub open spec fn blank() -> PollView {
        PollView {
            poll_id: 0,
            description: Seq::empty(),
            poll_start: 0,
            poll_end: 0,
            candidate_amount: 0,
            total_votes: 0,
        }
    }

    /// A poll as it stands right after its creation.
    pub open spec fn fresh(
        poll_id: u64,
        description: Seq<char>,
        poll_start: u64,
        poll_end: u64,
    ) -> PollView {
        PollView { poll_id, description, poll_start, poll_end, candidate_amount: 0, total_votes: 0 }
    }

    /// Whether the poll accepts ballots at `current_time`: the window is
    /// closed on both ends.
    pub open spec fn is_open_at(self, current_time: u64) -> bool {
        self.poll_start <= current_time <= self.poll_end
    }
}

/// An option that voters can choose in a poll.
#[derive(Debug)]
pub struct Candidate {
    pub candidate_name: String,
    pub candidate_votes: u64,
}

/// What a [`Candidate`] holds, as mathematical values.
pub struct CandidateView {
    pub candidate_name: Seq<char>,
    pub candidate_votes: nat,
}

impl View for Candidate {
    type V = CandidateView;

    open spec fn view(&self) -> CandidateView {
        CandidateView {
            candidate_name: self.candidate_name@,
            candidate_votes: self.candidate_votes as nat,
        }
    }
}

impl Clone for Candidate {
    fn clone(&self) -> (copy: Candidate)
        ensures
            copy == *self,
    {
        Candidate {
            candidate_name: self.candidate_name.clone(),
            candidate_votes: self.candidate_votes,
        }
    }
}

impl Default for Candidate {
    fn default() -> (candidate: Candidate)
        ensures
            candidate@ == CandidateView::blank(),
    {
        Candidate { candidate_name: String::new(), candidate_votes: 0 }
    }
}

impl CandidateView {
    /// A candidate record as the store allocates it, before it is initialized.
    pub open spec fn blank() -> CandidateView {
        CandidateView { candidate_name: Seq::empty(), candidate_votes: 0 }
    }

    /// A candidate as it stands right after its registration.
    pub open spec fn fresh(candidate_name: Seq<char>) -> CandidateView {
        CandidateView { candidate_name, candidate_votes: 0 }
    }
}

/// The ledger entry of one voter in one poll.
#[derive(Clone, Copy, Debug, PartialEq, Eq, Structural)]
pub struct VoterRecord {
    /// Whether the voter has cast a ballot in the poll.
    pub voted: bool,
    /// The identifier of the poll voted in; meaningful once `voted` is set.
    pub poll: u64,
}

impl VoterRecord {
    /// A voter record as the store allocates it, before any ballot.
    pub open spec fn blank() -> VoterRecord {
        VoterRecord { voted: false, poll: 0 }
    }
}

impl Default for VoterRecord {
    fn default() -> (record: VoterRecord)
        ensures
            record == VoterRecord::blank(),
    {
        VoterRecord { voted: false, poll: 0 }
    }
}

} // verus!
