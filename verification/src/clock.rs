//! Timestamps: the range accepted for a poll, and the runtime's clock.

use vstd::prelude::*;
use anchor_lang::prelude::Clock;
use anchor_lang::prelude::ProgramError;
use anchor_lang::prelude::SolanaSysvar;

verus! {

/// Exclusive upper bound of the timestamps a poll may carry: 2030-01-01T00:00:00Z.
pub const MAX_REASONABLE_TIMESTAMP: u64 = 1_893_456_000;

/// Whether `timestamp` lies strictly between the epoch and the sanity bound.
pub open spec fn valid_unix_timestamp(timestamp: u64) -> bool {
    0 < timestamp < MAX_REASONABLE_TIMESTAMP
}

/// Tells whether a unix timestamp, in seconds, is plausible for a poll.
pub fn is_valid_unix_timestamp(timestamp: u64) -> (valid: bool)
    ensures
        valid == valid_unix_timestamp(timestamp),
{
    timestamp > 0 && timestamp < MAX_REASONABLE_TIMESTAMP
}

/// The unsigned reading of a signed clock value: a time before the epoch
/// wraps around to the far future.
pub open spec fn spec_seconds_since_epoch(unix_timestamp: i64) -> u64 {
    if unix_timestamp >= 0 {
        unix_timestamp as u64
    } else {
        (unix_timestamp + 0x1_0000_0000_0000_0000) as u64
    }
}

/// Reinterprets the runtime's signed clock value as unsigned seconds.
pub fn seconds_since_epoch(unix_timestamp: i64) -> (seconds: u64)
    ensures
        seconds == spec_seconds_since_epoch(unix_timestamp),
{
    let seconds: u64 = unix_timestamp as u64;
    proof {
        assert(unix_timestamp >= 0i64 ==> seconds as i64 == unix_timestamp && seconds
            < 0x8000_0000_0000_0000u64) by (bit_vector)
            requires
                seconds == unix_timestamp as u64,
        ;
        assert(unix_timestamp < 0i64 ==> seconds >= 0x8000_0000_0000_0000u64 && (seconds
            - 0x8000_0000_0000_0000u64) as u64 as i64 == (unix_timestamp
            - (-0x8000_0000_0000_0000i64)) as i64) by (bit_vector)
            requires
                seconds == unix_timestamp as u64,
        ;
    }
    seconds
}

/// The error type of the Solana runtime, `ProgramError`, as `anchor_lang`
/// hands it on. It is carried through unread.
#[verifier::external_type_specification]
#[verifier::external_body]
pub struct ExProgramError(ProgramError);

/// Calls `Clock::get` of `anchor_lang`, which asks the Solana runtime for
/// its clock sysvar, and hands out the `unix_timestamp` field of the clock
/// it returns, or the error. Nothing is claimed of either: what comes back
/// depends on the runtime.
#[verifier::external_body]
fn read_unix_timestamp() -> (reading: Result<i64, ProgramError>) {
    match Clock::get() {
        Ok(clock) => Ok(clock.unix_timestamp),
        Err(error) => Err(error),
    }
}

/// The current time in seconds since the epoch, or `None` where the runtime
/// does not provide a clock.
pub(crate) fn current_time() -> (now: Option<u64>) {
    match read_unix_timestamp() {
        Ok(unix_timestamp) => Some(seconds_since_epoch(unix_timestamp)),
        Err(_) => None,
    }
}

} // verus!
