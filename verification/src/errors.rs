//! The error taxonomy of the crate.
//!
//! Every driver-reported failure surfaces as one of these typed results; no
//! retry is attempted anywhere in the library, since it cannot know whether a
//! failed call was transient.

use vstd::prelude::*;

verus! {

/// The device at the requested index could not be brought up: the index is
/// invalid, the device is busy, or the post-open buffer reset failed.  The
/// driver does not distinguish these reliably, so they are collapsed into one
/// kind.
#[derive(Clone, Copy, PartialEq, Eq, Structural, Debug)]
pub enum OpenError {
    Unavailable,
}

/// A single parameter-set call was refused by the driver.
#[derive(Clone, Copy, PartialEq, Eq, Structural, Debug)]
pub enum ControlError {
    Rejected,
}

/// The streaming call could not start, or aborted abnormally.  Clean
/// cancellation is *not* a failure and never produces this error.
#[derive(Clone, Copy, PartialEq, Eq, Structural, Debug)]
pub enum StreamError {
    Failed,
}

} // verus!
