//! Interpretation of driver status codes.
//!
//! The driver reports every call's outcome as an `i32` status.  These
//! functions are the single place where a raw status becomes a typed result,
//! and they are shared by the modeled session in this crate and by any
//! hardware binding sitting above the native driver.

use vstd::prelude::*;

use crate::errors::ControlError;
use crate::errors::StreamError;

verus! {

/// The status a driver call reports on success.
pub const STATUS_OK: i32 = 0;

/// The distinguished status reported by the frequency-correction call when
/// the correction is already at the requested value.
pub const STATUS_PPM_UNCHANGED: i32 = -2;

/// The status the modeled tuner reports when it refuses a call, for example a
/// gain commit that arrives while the tuner is still in automatic gain mode.
pub const STATUS_REFUSED: i32 = -1;

/// The status a cancellation request reports when no stream is active.  The
/// requesting side ignores it: cancelling with no stream in flight is a
/// no-op, not an error.
pub const STATUS_NOT_STREAMING: i32 = -2;

/// What a plain parameter-set status means.
pub open spec fn control_outcome_spec(status: i32) -> Result<(), ControlError> {
    if status == STATUS_OK {
        Ok(())
    } else {
        Err(ControlError::Rejected)
    }
}

/// Interpret the status of a plain parameter-set call: `0` is success, any
/// other status is a rejection.
pub fn control_outcome(status: i32) -> (r: Result<(), ControlError>)
    ensures
        r == control_outcome_spec(status),
        r is Ok <==> status == STATUS_OK,
{
    if status == STATUS_OK {
        Ok(())
    } else {
        Err(ControlError::Rejected)
    }
}

/// What a frequency-correction status means.
pub open spec fn ppm_outcome_spec(status: i32) -> Result<(), ControlError> {
    if status == STATUS_OK || status == STATUS_PPM_UNCHANGED {
        Ok(())
    } else {
        Err(ControlError::Rejected)
    }
}

/// Interpret the status of the frequency-correction call.  "Already at the
/// requested value" is a distinguished status and is success, not a
/// retryable error.
pub fn ppm_outcome(status: i32) -> (r: Result<(), ControlError>)
    ensures
        r == ppm_outcome_spec(status),
        r is Ok <==> status == STATUS_OK || status == STATUS_PPM_UNCHANGED,
{
    if status == STATUS_OK || status == STATUS_PPM_UNCHANGED {
        Ok(())
    } else {
        Err(ControlError::Rejected)
    }
}

/// What a streaming status means.
pub open spec fn stream_outcome_spec(status: i32) -> Result<(), StreamError> {
    if status == STATUS_OK {
        Ok(())
    } else {
        Err(StreamError::Failed)
    }
}

/// Interpret the status the streaming call returns with: `0` means the
/// transfer ended cleanly (cancellation included), anything else means it
/// could not start or aborted abnormally.
pub fn stream_outcome(status: i32) -> (r: Result<(), StreamError>)
    ensures
        r == stream_outcome_spec(status),
        r is Ok <==> status == STATUS_OK,
{
    if status == STATUS_OK {
        Ok(())
    } else {
        Err(StreamError::Failed)
    }
}

/// How an open attempt must proceed after its two driver steps: acquiring the
/// session and performing the implicit buffer reset.
#[derive(Clone, Copy, PartialEq, Eq, Structural, Debug)]
pub enum OpenPlan {
    /// Both steps succeeded: hand the session out.
    Proceed,
    /// The acquire step failed: there is no session to release.
    FailBeforeAcquire,
    /// The acquire step succeeded but the reset step failed: the session must
    /// be released before the error is returned, so that no handle leaks.
    FailAfterAcquire,
}

/// What an open attempt's step statuses dictate.
pub open spec fn open_plan_spec(acquire_status: i32, reset_status: i32) -> OpenPlan {
    if acquire_status != STATUS_OK {
        OpenPlan::FailBeforeAcquire
    } else if reset_status != STATUS_OK {
        OpenPlan::FailAfterAcquire
    } else {
        OpenPlan::Proceed
    }
}

/// Decide how an open attempt proceeds from the statuses of its acquire and
/// reset steps.  Both failure plans surface as [`OpenError::Unavailable`];
/// they differ only in whether a session was acquired and must be released.
pub fn open_plan(acquire_status: i32, reset_status: i32) -> (r: OpenPlan)
    ensures
        r == open_plan_spec(acquire_status, reset_status),
        r is Proceed <==> acquire_status == STATUS_OK && reset_status == STATUS_OK,
        r is FailAfterAcquire <==> acquire_status == STATUS_OK && reset_status != STATUS_OK,
{
    if acquire_status != STATUS_OK {
        OpenPlan::FailBeforeAcquire
    } else if reset_status != STATUS_OK {
        OpenPlan::FailAfterAcquire
    } else {
        OpenPlan::Proceed
    }
}

/// Whether a gain-table entry count reported by the device respects the
/// querying contract: at least one entry, and no more than the fixed
/// 32-entry buffer holds.  A count outside these bounds is a broken driver
/// assumption, not a runtime condition callers should handle.
pub fn gains_count_valid(n: i32) -> (r: bool)
    ensures
        r <==> 1 <= n <= 32,
{
    1 <= n && n <= 32
}

} // verus!
