//! The modeled device session.
//!
//! The native driver owns the real hardware; this module models the one
//! session the two handles share as explicit state, and gives every driver
//! primitive the library relies on a verified transition over that state.
//! Each primitive returns the next state together with the `i32` status the
//! driver reports for the call.

use vstd::prelude::*;

use crate::outcome::STATUS_OK;
use crate::outcome::STATUS_NOT_STREAMING;
use crate::outcome::STATUS_PPM_UNCHANGED;
use crate::outcome::STATUS_REFUSED;

verus! {

/// The tuner chip fitted to a device, as the driver reports it.
#[allow(non_camel_case_types)]
#[derive(Clone, Copy, PartialEq, Eq, Structural, Debug)]
pub enum rtlsdr_tuner {
    RTLSDR_TUNER_UNKNOWN,
    RTLSDR_TUNER_E4000,
    RTLSDR_TUNER_FC0012,
    RTLSDR_TUNER_FC0013,
    RTLSDR_TUNER_FC2580,
    RTLSDR_TUNER_R820T,
    RTLSDR_TUNER_R828D,
}

/// The state of one device session.
///
/// Exactly one of these exists per open session, held behind the lock the
/// two cooperating handles share.  The numeric parameters mirror what the
/// hardware holds; `streaming` and `cancel_requested` are the streaming
/// state machine; `buffer_dirty` records whether samples may be queued at
/// the hardware that no stream has consumed.
pub struct DeviceState {
    /// Sample rate in samples per second.
    pub sample_rate: u32,
    /// Center frequency in Hz.
    pub center_freq: u32,
    /// Frequency correction in parts per million.
    pub ppm: i32,
    /// Tuner gain in tenths of a dB.
    pub tuner_gain: i32,
    /// Tuner bandwidth in Hz; zero selects the automatic bandwidth.
    pub bandwidth: u32,
    /// Whether the tuner is in manual gain mode (as opposed to automatic).
    pub manual_gain: bool,
    /// Whether the hardware AGC is enabled.
    pub agc_on: bool,
    /// Whether a blocking stream is active on the session.
    pub streaming: bool,
    /// Whether cancellation of the active stream has been requested.
    pub cancel_requested: bool,
    /// Whether samples may be queued at the hardware from before control
    /// began.
    pub buffer_dirty: bool,
    /// The gain settings the tuner supports, in tenths of a dB.
    pub gains: Vec<i32>,
    /// The tuner chip of the modeled device.
    pub tuner: rtlsdr_tuner,
}

/// The gain table the modeled tuner reports, in tenths of a dB: the table
/// of an R820T tuner, ascending from 0 to 49.6 dB.
pub open spec fn model_gain_table() -> Seq<i32> {
    seq![
        0i32, 9, 14, 27, 37, 77, 87, 125, 144, 157, 166, 197, 207, 229, 254, 280, 297, 328,
        338, 364, 372, 386, 402, 421, 434, 439, 445, 480, 496,
    ]
}

impl DeviceState {
    /// Well-formedness of a session state: the tuner reports at least one
    /// supported gain and no more than the fixed 32-entry query buffer
    /// holds.
    pub open spec fn wf(self) -> bool {
        1 <= self.gains@.len() <= 32
    }

    /// The state of a freshly acquired session, before the implicit buffer
    /// reset that `open` performs.  The modeled device carries the gain
    /// table of an R820T tuner, the part most commonly fitted.
    pub fn initial() -> (s: DeviceState)
        ensures
            s.wf(),
            !s.streaming,
            !s.cancel_requested,
            s.buffer_dirty,
            !s.manual_gain,
            !s.agc_on,
            s.sample_rate == 0,
            s.center_freq == 0,
            s.ppm == 0,
            s.tuner_gain == 0,
            s.bandwidth == 0,
            s.gains@ == model_gain_table(),
            s.tuner == rtlsdr_tuner::RTLSDR_TUNER_R820T,
    {
        let gains: Vec<i32> = vec![
            0, 9, 14, 27, 37, 77, 87, 125, 144, 157, 166, 197, 207, 229, 254, 280, 297, 328,
            338, 364, 372, 386, 402, 421, 434, 439, 445, 480, 496,
        ];
        DeviceState {
            sample_rate: 0,
            center_freq: 0,
            ppm: 0,
            tuner_gain: 0,
            bandwidth: 0,
            manual_gain: false,
            agc_on: false,
            streaming: false,
            cancel_requested: false,
            buffer_dirty: true,
            gains,
            tuner: rtlsdr_tuner::RTLSDR_TUNER_R820T,
        }
    }
}

/// What setting the sample rate does: the rate is stored and the call
/// succeeds.
pub open spec fn drv_set_sample_rate_spec(s: DeviceState, rate: u32) -> (DeviceState, i32) {
    (DeviceState { sample_rate: rate, ..s }, STATUS_OK)
}

/// Driver primitive: set the sample rate (samples/sec).
pub fn drv_set_sample_rate(s: DeviceState, rate: u32) -> (r: (DeviceState, i32))
    ensures
        r == drv_set_sample_rate_spec(s, rate),
{
    (DeviceState { sample_rate: rate, ..s }, STATUS_OK)
}

/// What setting the center frequency does: the frequency is stored and the
/// call succeeds.
pub open spec fn drv_set_center_freq_spec(s: DeviceState, freq: u32) -> (DeviceState, i32) {
    (DeviceState { center_freq: freq, ..s }, STATUS_OK)
}

/// Driver primitive: set the center frequency (Hz).
pub fn drv_set_center_freq(s: DeviceState, freq: u32) -> (r: (DeviceState, i32))
    ensures
        r == drv_set_center_freq_spec(s, freq),
{
    (DeviceState { center_freq: freq, ..s }, STATUS_OK)
}

/// What setting the tuner bandwidth does: the bandwidth is stored and the
/// call succeeds.
pub open spec fn drv_set_tuner_bandwidth_spec(s: DeviceState, bw: u32) -> (DeviceState, i32) {
    (DeviceState { bandwidth: bw, ..s }, STATUS_OK)
}

/// Driver primitive: set the tuner bandwidth (Hz).
pub fn drv_set_tuner_bandwidth(s: DeviceState, bw: u32) -> (r: (DeviceState, i32))
    ensures
        r == drv_set_tuner_bandwidth_spec(s, bw),
{
    (DeviceState { bandwidth: bw, ..s }, STATUS_OK)
}

/// What setting the frequency correction does: if the correction is already
/// at the requested value the driver reports the distinguished
/// [`STATUS_PPM_UNCHANGED`] status and changes nothing; otherwise the value
/// is stored and the call succeeds.
pub open spec fn drv_set_freq_correction_spec(s: DeviceState, ppm: i32) -> (DeviceState, i32) {
    if s.ppm == ppm {
        (s, STATUS_PPM_UNCHANGED)
    } else {
        (DeviceState { ppm: ppm, ..s }, STATUS_OK)
    }
}

/// Driver primitive: set the frequency correction (ppm).
pub fn drv_set_freq_correction(s: DeviceState, ppm: i32) -> (r: (DeviceState, i32))
    ensures
        r == drv_set_freq_correction_spec(s, ppm),
{
    if s.ppm == ppm {
        (s, STATUS_PPM_UNCHANGED)
    } else {
        (DeviceState { ppm: ppm, ..s }, STATUS_OK)
    }
}

/// What setting the tuner gain mode does: the mode is stored and the call
/// succeeds.
pub open spec fn drv_set_tuner_gain_mode_spec(s: DeviceState, manual: bool) -> (DeviceState, i32) {
    (DeviceState { manual_gain: manual, ..s }, STATUS_OK)
}

/// Driver primitive: put the tuner in manual (`true`) or automatic
/// (`false`) gain mode.
pub fn drv_set_tuner_gain_mode(s: DeviceState, manual: bool) -> (r: (DeviceState, i32))
    ensures
        r == drv_set_tuner_gain_mode_spec(s, manual),
{
    (DeviceState { manual_gain: manual, ..s }, STATUS_OK)
}

/// What setting the AGC mode does: the mode is stored and the call
/// succeeds.
pub open spec fn drv_set_agc_mode_spec(s: DeviceState, on: bool) -> (DeviceState, i32) {
    (DeviceState { agc_on: on, ..s }, STATUS_OK)
}

/// Driver primitive: enable or disable the hardware AGC.
pub fn drv_set_agc_mode(s: DeviceState, on: bool) -> (r: (DeviceState, i32))
    ensures
        r == drv_set_agc_mode_spec(s, on),
{
    (DeviceState { agc_on: on, ..s }, STATUS_OK)
}

/// What committing a tuner gain does: in manual gain mode the gain is
/// stored and the call succeeds; a commit that arrives while the tuner is
/// still in automatic mode is refused and changes nothing.  This is why the
/// compound gain operation must force manual mode *before* committing the
/// value.
pub open spec fn drv_set_tuner_gain_spec(s: DeviceState, gain: i32) -> (DeviceState, i32) {
    if s.manual_gain {
        (DeviceState { tuner_gain: gain, ..s }, STATUS_OK)
    } else {
        (s, STATUS_REFUSED)
    }
}

/// Driver primitive: commit a tuner gain (tenths of a dB).
pub fn drv_set_tuner_gain(s: DeviceState, gain: i32) -> (r: (DeviceState, i32))
    ensures
        r == drv_set_tuner_gain_spec(s, gain),
{
    if s.manual_gain {
        (DeviceState { tuner_gain: gain, ..s }, STATUS_OK)
    } else {
        (s, STATUS_REFUSED)
    }
}

/// What a buffer reset does: any samples queued from before are discarded
/// and the call succeeds.
pub open spec fn drv_reset_buffer_spec(s: DeviceState) -> (DeviceState, i32) {
    (DeviceState { buffer_dirty: false, ..s }, STATUS_OK)
}

/// Driver primitive: reset the device's buffer of incoming samples.
pub fn drv_reset_buffer(s: DeviceState) -> (r: (DeviceState, i32))
    ensures
        r == drv_reset_buffer_spec(s),
{
    (DeviceState { buffer_dirty: false, ..s }, STATUS_OK)
}

/// What a cancellation request does: with a stream active it marks the
/// stream as cancelled and succeeds; with no stream active it changes
/// nothing and reports a non-zero status, which the caller ignores — a
/// cancellation with no stream in flight is a no-op, not an error.
pub open spec fn drv_cancel_async_spec(s: DeviceState) -> (DeviceState, i32) {
    if s.streaming {
        (DeviceState { cancel_requested: true, ..s }, STATUS_OK)
    } else {
        (s, STATUS_NOT_STREAMING)
    }
}

/// Driver primitive: request cancellation of the active stream, if any.
pub fn drv_cancel_async(s: DeviceState) -> (r: (DeviceState, i32))
    ensures
        r == drv_cancel_async_spec(s),
{
    if s.streaming {
        (DeviceState { cancel_requested: true, ..s }, STATUS_OK)
    } else {
        (s, STATUS_NOT_STREAMING)
    }
}

/// What starting the blocking transfer does: the session enters the
/// `Streaming` state.
pub open spec fn drv_stream_enter_spec(s: DeviceState) -> (DeviceState, i32) {
    (DeviceState { streaming: true, ..s }, STATUS_OK)
}

/// Driver primitive: begin the continuous transfer for a blocking stream.
pub fn drv_stream_enter(s: DeviceState) -> (r: (DeviceState, i32))
    ensures
        r == drv_stream_enter_spec(s),
{
    (DeviceState { streaming: true, ..s }, STATUS_OK)
}

/// What the end of the blocking transfer does: the session returns to the
/// `Idle` state and any pending cancellation request is consumed.
pub open spec fn drv_stream_exit_spec(s: DeviceState) -> (DeviceState, i32) {
    (DeviceState { streaming: false, cancel_requested: false, ..s }, STATUS_OK)
}

/// Driver primitive: end the continuous transfer of a blocking stream.
pub fn drv_stream_exit(s: DeviceState) -> (r: (DeviceState, i32))
    ensures
        r == drv_stream_exit_spec(s),
{
    (DeviceState { streaming: false, cancel_requested: false, ..s }, STATUS_OK)
}

} // verus!
