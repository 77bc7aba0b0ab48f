//! The laws the session's transitions obey.
//!
//! Each proof function here states one guarantee of the control/streaming
//! split over the verified transitions of [`crate::control`] and
//! [`crate::device`], for every well-formed session state — not for chosen
//! examples.

use vstd::prelude::*;

use crate::control::ctl_cancel_spec;
use crate::control::ctl_disable_agc_spec;
use crate::control::ctl_enable_agc_spec;
use crate::control::ctl_set_center_freq_spec;
use crate::control::ctl_set_ppm_spec;
use crate::control::ctl_set_sample_rate_spec;
use crate::control::ctl_set_tuner_gain_spec;
use crate::device::DeviceState;
use crate::device::drv_stream_exit_spec;

verus! {

/// A cancellation request with no stream in flight is a no-op: the session
/// state is left exactly as it was, and the request reports no error.  In
/// particular this holds immediately after a session is opened, since a
/// fresh session is not streaming.
pub proof fn cancel_with_no_stream_is_noop(s: DeviceState)
    requires
        !s.streaming,
    ensures
        ctl_cancel_spec(s) == s,
{
}

/// A cancellation request during an active stream marks the stream
/// cancelled and touches nothing else; the blocked streaming call observes
/// the mark at the next chunk boundary and returns cleanly.
pub proof fn cancel_during_stream_marks_cancelled(s: DeviceState)
    requires
        s.streaming,
    ensures
        ctl_cancel_spec(s).cancel_requested,
        ctl_cancel_spec(s) == (DeviceState { cancel_requested: true, ..s }),
{
}

/// Ending a stream returns the session to idle with no cancellation
/// pending, whatever state the stream ended in: a later cancellation
/// request then falls under [`cancel_with_no_stream_is_noop`].
pub proof fn stream_exit_returns_to_idle(s: DeviceState)
    ensures
        !drv_stream_exit_spec(s).0.streaming,
        !drv_stream_exit_spec(s).0.cancel_requested,
{
}

/// Setting the tuner gain and then reading it gives back exactly the value
/// that was set, for every well-formed state and every gain value — in
/// particular for every value of the device's queried gain table.  The
/// compound set also succeeds and leaves the tuner in manual gain mode.
pub proof fn gain_round_trip(s: DeviceState, g: i32)
    ensures
        ctl_set_tuner_gain_spec(s, g).1 is Ok,
        ctl_set_tuner_gain_spec(s, g).0.tuner_gain == g,
        ctl_set_tuner_gain_spec(s, g).0.manual_gain,
{
}

/// Enabling the hardware AGC and then disabling it leaves the session with
/// manual gain mode enabled and the AGC disabled, and both compound
/// operations succeed.
pub proof fn agc_round_trip(s: DeviceState)
    ensures
        ctl_enable_agc_spec(s).1 is Ok,
        ({
            let s1 = ctl_enable_agc_spec(s).0;
            &&& ctl_disable_agc_spec(s1).1 is Ok
            &&& ctl_disable_agc_spec(s1).0.manual_gain
            &&& !ctl_disable_agc_spec(s1).0.agc_on
        }),
{
}

/// A concurrent retune never disturbs the stream: setting the center
/// frequency succeeds and leaves the streaming state machine — the
/// `streaming` and `cancel_requested` flags — exactly as it found it.  The
/// same holds for the sample rate, the frequency correction, the gain and
/// the AGC operations.
pub proof fn retune_leaves_stream_undisturbed(s: DeviceState, freq: u32)
    ensures
        ctl_set_center_freq_spec(s, freq).1 is Ok,
        ctl_set_center_freq_spec(s, freq).0.streaming == s.streaming,
        ctl_set_center_freq_spec(s, freq).0.cancel_requested == s.cancel_requested,
{
}

/// The same non-disturbance for the other parameter mutations: no control
/// operation moves the streaming state machine.
pub proof fn control_leaves_stream_undisturbed(s: DeviceState, rate: u32, ppm: i32, g: i32)
    ensures
        ctl_set_sample_rate_spec(s, rate).0.streaming == s.streaming,
        ctl_set_sample_rate_spec(s, rate).0.cancel_requested == s.cancel_requested,
        ctl_set_ppm_spec(s, ppm).0.streaming == s.streaming,
        ctl_set_ppm_spec(s, ppm).0.cancel_requested == s.cancel_requested,
        ctl_set_tuner_gain_spec(s, g).0.streaming == s.streaming,
        ctl_set_tuner_gain_spec(s, g).0.cancel_requested == s.cancel_requested,
        ctl_enable_agc_spec(s).0.streaming == s.streaming,
        ctl_enable_agc_spec(s).0.cancel_requested == s.cancel_requested,
        ctl_disable_agc_spec(s).0.streaming == s.streaming,
        ctl_disable_agc_spec(s).0.cancel_requested == s.cancel_requested,
{
}

/// Setting the frequency correction succeeds both when the value changes
/// and when the driver reports it unchanged, and afterwards the session
/// holds the requested correction either way.
pub proof fn ppm_set_is_lenient(s: DeviceState, ppm: i32)
    ensures
        ctl_set_ppm_spec(s, ppm).1 is Ok,
        ctl_set_ppm_spec(s, ppm).0.ppm == ppm,
{
}

} // verus!
