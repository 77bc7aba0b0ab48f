//! The control operations as verified transitions over the session state.
//!
//! Each function is one `Controller` operation's whole effect on a session:
//! it strings the driver primitives together in the order the hardware
//! requires, interprets their statuses, and returns the next state with the
//! typed result the caller sees.  The compound operations fail without
//! rollback: a partial application is reported as a single failure, because
//! a rollback would take a second driver call that could itself fail.

use vstd::prelude::*;

use crate::device::DeviceState;
use crate::device::drv_cancel_async;
use crate::device::drv_cancel_async_spec;
use crate::device::drv_reset_buffer;
use crate::device::drv_reset_buffer_spec;
use crate::device::drv_set_agc_mode;
use crate::device::drv_set_agc_mode_spec;
use crate::device::drv_set_center_freq;
use crate::device::drv_set_center_freq_spec;
use crate::device::drv_set_freq_correction;
use crate::device::drv_set_freq_correction_spec;
use crate::device::drv_set_sample_rate;
use crate::device::drv_set_sample_rate_spec;
use crate::device::drv_set_tuner_bandwidth;
use crate::device::drv_set_tuner_bandwidth_spec;
use crate::device::drv_set_tuner_gain;
use crate::device::drv_set_tuner_gain_mode;
use crate::device::drv_set_tuner_gain_mode_spec;
use crate::device::drv_set_tuner_gain_spec;
use crate::errors::ControlError;
use crate::outcome::STATUS_OK;
use crate::outcome::control_outcome;
use crate::outcome::control_outcome_spec;
use crate::outcome::ppm_outcome;
use crate::outcome::ppm_outcome_spec;

verus! {

/// The effect of one sample-rate set.
pub open spec fn ctl_set_sample_rate_spec(s: DeviceState, rate: u32) -> (DeviceState, Result<
    (),
    ControlError,
>) {
    let (s1, st) = drv_set_sample_rate_spec(s, rate);
    (s1, control_outcome_spec(st))
}

/// Set the sample rate (samples/sec).
pub fn ctl_set_sample_rate(s: DeviceState, rate: u32) -> (r: (DeviceState, Result<
    (),
    ControlError,
>))
    ensures
        r == ctl_set_sample_rate_spec(s, rate),
        r.0.wf() == s.wf(),
{
    let (s1, st) = drv_set_sample_rate(s, rate);
    (s1, control_outcome(st))
}

/// The effect of one center-frequency set.
pub open spec fn ctl_set_center_freq_spec(s: DeviceState, freq: u32) -> (DeviceState, Result<
    (),
    ControlError,
>) {
    let (s1, st) = drv_set_center_freq_spec(s, freq);
    (s1, control_outcome_spec(st))
}

/// Set the center frequency (Hz).
pub fn ctl_set_center_freq(s: DeviceState, freq: u32) -> (r: (DeviceState, Result<
    (),
    ControlError,
>))
    ensures
        r == ctl_set_center_freq_spec(s, freq),
        r.0.wf() == s.wf(),
{
    let (s1, st) = drv_set_center_freq(s, freq);
    (s1, control_outcome(st))
}

/// The effect of one tuner-bandwidth set.
pub open spec fn ctl_set_bandwidth_spec(s: DeviceState, bw: u32) -> (DeviceState, Result<
    (),
    ControlError,
>) {
    let (s1, st) = drv_set_tuner_bandwidth_spec(s, bw);
    (s1, control_outcome_spec(st))
}

/// Set the tuner bandwidth (Hz).
pub fn ctl_set_bandwidth(s: DeviceState, bw: u32) -> (r: (DeviceState, Result<(), ControlError>))
    ensures
        r == ctl_set_bandwidth_spec(s, bw),
        r.0.wf() == s.wf(),
{
    let (s1, st) = drv_set_tuner_bandwidth(s, bw);
    (s1, control_outcome(st))
}

/// The effect of one frequency-correction set.
pub open spec fn ctl_set_ppm_spec(s: DeviceState, ppm: i32) -> (DeviceState, Result<
    (),
    ControlError,
>) {
    let (s1, st) = drv_set_freq_correction_spec(s, ppm);
    (s1, ppm_outcome_spec(st))
}

/// Set the frequency correction (ppm).  A correction already at the
/// requested value is success, not an error.
pub fn ctl_set_ppm(s: DeviceState, ppm: i32) -> (r: (DeviceState, Result<(), ControlError>))
    ensures
        r == ctl_set_ppm_spec(s, ppm),
        r.0.wf() == s.wf(),
{
    let (s1, st) = drv_set_freq_correction(s, ppm);
    (s1, ppm_outcome(st))
}

/// The effect of enabling the hardware AGC: the tuner leaves manual gain
/// mode, then the AGC is switched on.  If the first step fails nothing has
/// been applied; if the second step fails the device is left in automatic
/// gain mode with the AGC still off, and the whole operation reports one
/// failure.
pub open spec fn ctl_enable_agc_spec(s: DeviceState) -> (DeviceState, Result<(), ControlError>) {
    let (s1, st1) = drv_set_tuner_gain_mode_spec(s, false);
    if st1 != STATUS_OK {
        (s1, Err(ControlError::Rejected))
    } else {
        let (s2, st2) = drv_set_agc_mode_spec(s1, true);
        (s2, control_outcome_spec(st2))
    }
}

/// Enable the hardware AGC.  This also leaves manual tuner gain mode.
pub fn ctl_enable_agc(s: DeviceState) -> (r: (DeviceState, Result<(), ControlError>))
    ensures
        r == ctl_enable_agc_spec(s),
        r.0.wf() == s.wf(),
{
    let (s1, st1) = drv_set_tuner_gain_mode(s, false);
    if st1 != STATUS_OK {
        (s1, Err(ControlError::Rejected))
    } else {
        let (s2, st2) = drv_set_agc_mode(s1, true);
        (s2, control_outcome(st2))
    }
}

/// The effect of disabling the hardware AGC: the mirror of enabling it.
/// The tuner enters manual gain mode, then the AGC is switched off.
pub open spec fn ctl_disable_agc_spec(s: DeviceState) -> (DeviceState, Result<(), ControlError>) {
    let (s1, st1) = drv_set_tuner_gain_mode_spec(s, true);
    if st1 != STATUS_OK {
        (s1, Err(ControlError::Rejected))
    } else {
        let (s2, st2) = drv_set_agc_mode_spec(s1, false);
        (s2, control_outcome_spec(st2))
    }
}

/// Disable the hardware AGC.  This also enables manual tuner gain mode.
pub fn ctl_disable_agc(s: DeviceState) -> (r: (DeviceState, Result<(), ControlError>))
    ensures
        r == ctl_disable_agc_spec(s),
        r.0.wf() == s.wf(),
{
    let (s1, st1) = drv_set_tuner_gain_mode(s, true);
    if st1 != STATUS_OK {
        (s1, Err(ControlError::Rejected))
    } else {
        let (s2, st2) = drv_set_agc_mode(s1, false);
        (s2, control_outcome(st2))
    }
}

/// The effect of one manual gain set: manual gain mode is forced on first,
/// and only then is the numeric gain committed.  The order matters: the
/// tuner refuses a gain commit that arrives while it is still in automatic
/// mode.
pub open spec fn ctl_set_tuner_gain_spec(s: DeviceState, gain: i32) -> (DeviceState, Result<
    (),
    ControlError,
>) {
    let (s1, st1) = drv_set_tuner_gain_mode_spec(s, true);
    if st1 != STATUS_OK {
        (s1, Err(ControlError::Rejected))
    } else {
        let (s2, st2) = drv_set_tuner_gain_spec(s1, gain);
        (s2, control_outcome_spec(st2))
    }
}

/// Set the tuner gain (tenths of a dB).  This also disables the hardware
/// AGC's hold on the gain by forcing manual gain mode.
pub fn ctl_set_tuner_gain(s: DeviceState, gain: i32) -> (r: (DeviceState, Result<
    (),
    ControlError,
>))
    ensures
        r == ctl_set_tuner_gain_spec(s, gain),
        r.0.wf() == s.wf(),
{
    let (s1, st1) = drv_set_tuner_gain_mode(s, true);
    if st1 != STATUS_OK {
        (s1, Err(ControlError::Rejected))
    } else {
        let (s2, st2) = drv_set_tuner_gain(s1, gain);
        (s2, control_outcome(st2))
    }
}

/// The effect of one buffer reset.
pub open spec fn ctl_reset_buffer_spec(s: DeviceState) -> (DeviceState, Result<(), ControlError>) {
    let (s1, st) = drv_reset_buffer_spec(s);
    (s1, control_outcome_spec(st))
}

/// Reset the device's buffer of incoming samples, clearing any samples
/// received but not yet consumed by a stream.
pub fn ctl_reset_buffer(s: DeviceState) -> (r: (DeviceState, Result<(), ControlError>))
    ensures
        r == ctl_reset_buffer_spec(s),
        r.0.wf() == s.wf(),
{
    let (s1, st) = drv_reset_buffer(s);
    (s1, control_outcome(st))
}

/// The effect of one cancellation request: with a stream active it marks
/// the stream cancelled; with none it changes nothing.  The driver status
/// is ignored either way — cancellation is fire-and-forget.
pub open spec fn ctl_cancel_spec(s: DeviceState) -> DeviceState {
    drv_cancel_async_spec(s).0
}

/// Request cancellation of the active stream, if any.
pub fn ctl_cancel(s: DeviceState) -> (r: DeviceState)
    ensures
        r == ctl_cancel_spec(s),
        r.wf() == s.wf(),
{
    let (s1, _status) = drv_cancel_async(s);
    s1
}

} // verus!
