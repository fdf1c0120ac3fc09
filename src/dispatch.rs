//! Failure policy of the distributor and of the cycle's retry wrapper.
use vstd::prelude::*;

verus! {

/// Why the messaging channel did not take a message.
#[derive(Clone, Debug, PartialEq, Eq)]
pub enum DeliveryError {
    /// The recipient blocked the channel or cannot be reached.
    Blocked,
    /// Any other failure, with its description.
    Other(String),
}

/// What the distributor reports for one delivery attempt: a blocked recipient is no
/// failure; any other failure is handed on, and is never retried.
pub fn delivery_outcome(sent: Result<(), DeliveryError>) -> (r: Result<(), DeliveryError>)
    ensures
        match sent {
            Ok(()) => r is Ok,
            Err(DeliveryError::Blocked) => r is Ok,
            Err(DeliveryError::Other(m)) => r matches Err(DeliveryError::Other(n)) && n@ == m@,
        },
{
    match sent {
        Ok(()) => Ok(()),
        Err(DeliveryError::Blocked) => Ok(()),
        Err(DeliveryError::Other(m)) => Err(DeliveryError::Other(m)),
    }
}

/// The first delay of the retry wrapper, in seconds.
pub const BACKOFF_BASELINE_SECS: u64 = 1;

/// What each failure adds to the delay while it is under the cap.
pub const BACKOFF_STEP_SECS: u64 = 5;

/// No step is added once the delay reaches this.
pub const BACKOFF_CAP_SECS: u64 = 30;

/// After this long without a failure the delay starts over.
pub const BACKOFF_RESET_SECS: u64 = 300;

/// The delay before the next attempt, after a failure that came `secs_since_last` seconds
/// after the previous wait ended (or after the wrapper started).
pub fn next_backoff(current: u64, secs_since_last: u64) -> (r: u64)
    ensures
        r as int == if secs_since_last > BACKOFF_RESET_SECS {
            BACKOFF_BASELINE_SECS as int
        } else if current < BACKOFF_CAP_SECS {
            current + BACKOFF_STEP_SECS
        } else {
            current as int
        },
{
    let mut backoff = current;
    if backoff < BACKOFF_CAP_SECS {
        backoff = backoff + BACKOFF_STEP_SECS;
    }
    if secs_since_last > BACKOFF_RESET_SECS {
        backoff = BACKOFF_BASELINE_SECS;
    }
    backoff
}

} // verus!
