//! An on-chain voting registry: polls with a time window, candidates
//! registered under a poll, and one ballot per voter and poll.

pub mod clock;
pub mod counting;
pub mod error;
pub mod instructions;
pub mod laws;
pub mod ledger;
pub mod registry;
pub mod soundness;
pub mod state;
pub mod tally;

pub use clock::{is_valid_unix_timestamp, seconds_since_epoch, MAX_REASONABLE_TIMESTAMP};
pub use error::VotingError;
pub use instructions::{
    initialize_candidate, initialize_poll, initialize_poll_at, vote, vote_at, InitializeCandidate,
    InitializePoll, Vote,
};
pub use registry::{CandidateHandle, PollHandle, VoteReceipt, VotingRegistry};
pub use state::{
    fits_candidate_name, fits_description, Candidate, Identity, Poll, VoterRecord,
    MAX_CANDIDATE_NAME_LEN, MAX_DESCRIPTION_LEN,
};
