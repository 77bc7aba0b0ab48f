//! The two cooperating handles over one shared device session.
//!
//! [`open`] produces a [`Controller`] and a [`Reader`] that share ownership
//! of a single session.  The session state sits behind a reader-writer lock
//! whose invariant is the state's well-formedness, standing in for the
//! serialization the native driver provides at its transport layer; the
//! session itself is released when the last of the two handles is dropped.
//!
//! Every control operation is short: it takes the lock, applies one verified
//! transition from [`crate::control`], and releases the lock, so it can be
//! issued from any thread while the reader is blocked mid-stream.  The
//! reader's blocking call holds the lock only between chunks, which is what
//! lets a concurrent cancellation request through.

use vstd::prelude::*;

use std::sync::Arc;

use vstd::rwlock::RwLock;
use vstd::rwlock::RwLockPredicate;

use crate::control::ctl_cancel;
use crate::control::ctl_disable_agc;
use crate::control::ctl_enable_agc;
use crate::control::ctl_reset_buffer;
use crate::control::ctl_set_bandwidth;
use crate::control::ctl_set_center_freq;
use crate::control::ctl_set_ppm;
use crate::control::ctl_set_sample_rate;
use crate::control::ctl_set_tuner_gain;
use crate::device::DeviceState;
use crate::device::drv_reset_buffer;
use crate::device::drv_stream_enter;
use crate::device::drv_stream_exit;
use crate::errors::ControlError;
use crate::errors::OpenError;
use crate::errors::StreamError;
use crate::outcome::OpenPlan;
use crate::outcome::STATUS_OK;
use crate::outcome::STATUS_REFUSED;
use crate::outcome::open_plan;
use crate::outcome::stream_outcome;

verus! {

/// Holds a list of valid gain values.
pub type TunerGains = [i32; 32];

/// The lock invariant of a shared session: whatever state the lock holds is
/// well-formed.
pub struct SessionInv;

impl RwLockPredicate<DeviceState> for SessionInv {
    open spec fn inv(self, v: DeviceState) -> bool {
        v.wf()
    }
}

/// The shared owner of one device session: a reference-counted lock around
/// the session state.  The session is released exactly once, when the last
/// of the two cooperating handles is dropped.
pub type SessionHandle = Arc<RwLock<DeviceState, SessionInv>>;

/// Relies on std's `Arc::clone`: the clone is a second owner of the same
/// allocation, so as a value it equals the original.
#[verifier::external_body]
fn share_session(s: &SessionHandle) -> (r: SessionHandle)
    ensures
        r == *s,
{
    Arc::clone(s)
}

/// Copy a device-reported gain table into a caller's fixed 32-entry
/// buffer: exactly the table's entries are written, in order, and the
/// buffer past the table's length is untouched.
pub fn copy_gain_table(table: &Vec<i32>, gains: &mut TunerGains) -> (n: usize)
    requires
        1 <= table@.len() <= 32,
    ensures
        n == table@.len(),
        forall|i: int| 0 <= i < n ==> final(gains)@[i] == table@[i],
        forall|i: int| n <= i < 32 ==> final(gains)@[i] == old(gains)@[i],
{
    let n = table.len();
    let mut i: usize = 0;
    while i < n
        invariant
            n == table@.len(),
            1 <= n <= 32,
            i <= n,
            gains@.len() == 32,
            forall|j: int| i <= j < 32 ==> gains@[j] == old(gains)@[j],
            forall|j: int| 0 <= j < i ==> gains@[j] == table@[j],
        decreases n - i,
    {
        let v = table[i];
        gains[i] = v;
        i = i + 1;
    }
    n
}

/// How many devices the modeled driver enumerates: one, at index zero.  A
/// binding over the native driver asks the hardware instead.
pub const MODEL_DEVICE_COUNT: u32 = 1;

/// Try to open the device at the given index.
///
/// The index is validated against the enumerated device count, the session
/// is acquired, and one implicit buffer reset clears any samples already
/// queued at the hardware before control begins.  Failure at the acquire or
/// the reset step yields [`OpenError::Unavailable`], and no session is
/// leaked: a session whose reset failed is released before the error
/// returns.
///
/// On success the returned controller and reader share ownership of the
/// same session.
pub fn open(idx: u32) -> (r: Result<(Controller, Reader), OpenError>)
    ensures
        r is Ok <==> idx < MODEL_DEVICE_COUNT,
        r matches Ok(pair) ==> pair.0.session() == pair.1.session(),
{
    let acquire_status: i32 = if idx < MODEL_DEVICE_COUNT {
        STATUS_OK
    } else {
        STATUS_REFUSED
    };
    if acquire_status != STATUS_OK {
        return Err(OpenError::Unavailable);
    }
    let (state, reset_status) = drv_reset_buffer(DeviceState::initial());
    match open_plan(acquire_status, reset_status) {
        OpenPlan::Proceed => {
            let lock = RwLock::<DeviceState, SessionInv>::new(state, Ghost(SessionInv));
            let dev: SessionHandle = Arc::new(lock);
            let ctl_dev = share_session(&dev);
            Ok((Controller::new(ctl_dev), Reader::new(dev)))
        },
        _ => {
            // The acquired session goes out of scope here: it is released
            // before the error is returned, so nothing leaks.
            Err(OpenError::Unavailable)
        },
    }
}

/// Controls hardware parameters.
///
/// A controller may be moved to any thread and used while the session's
/// [`Reader`] is blocked mid-stream.  A parameter write is not atomic with
/// respect to a concurrent read of the same parameter from another thread:
/// the lock serializes the two calls but does not order them.
pub struct Controller {
    dev: SessionHandle,
}

impl Controller {
    /// The session this controller shares.
    pub closed spec fn session(&self) -> SessionHandle {
        self.dev
    }

    /// Create a new `Controller` for controlling the given shared session.
    pub fn new(dev: SessionHandle) -> (c: Controller)
        ensures
            c.session() == dev,
    {
        Controller { dev }
    }

    /// Get the current sample rate (samples/sec).
    ///
    /// The value read is the one the session held at the instant the lock
    /// was taken; a concurrent write may change it at any later point.
    pub fn sample_rate(&self) -> u32 {
        let handle = self.dev.acquire_read();
        let rate = handle.borrow().sample_rate;
        handle.release_read();
        rate
    }

    /// Set the sample rate (samples/sec).
    pub fn set_sample_rate(&mut self, rate: u32) -> (r: Result<(), ControlError>)
        ensures
            r is Ok,
            final(self).session() == old(self).session(),
    {
        let (state, handle) = self.dev.acquire_write();
        let (state, res) = ctl_set_sample_rate(state, rate);
        handle.release_write(state);
        res
    }

    /// Get the current center frequency (Hz).
    pub fn center_freq(&self) -> u32 {
        let handle = self.dev.acquire_read();
        let freq = handle.borrow().center_freq;
        handle.release_read();
        freq
    }

    /// Set the center frequency (Hz).
    pub fn set_center_freq(&mut self, freq: u32) -> (r: Result<(), ControlError>)
        ensures
            r is Ok,
            final(self).session() == old(self).session(),
    {
        let (state, handle) = self.dev.acquire_write();
        let (state, res) = ctl_set_center_freq(state, freq);
        handle.release_write(state);
        res
    }

    /// Set the tuner bandwidth (Hz).
    ///
    /// Note that this is not bit depth, which is fixed at 8 in hardware.
    pub fn set_bandwidth(&mut self, bw: u32) -> (r: Result<(), ControlError>)
        ensures
            r is Ok,
            final(self).session() == old(self).session(),
    {
        let (state, handle) = self.dev.acquire_write();
        let (state, res) = ctl_set_bandwidth(state, bw);
        handle.release_write(state);
        res
    }

    /// Get the current frequency correction (ppm).
    pub fn ppm(&self) -> i32 {
        let handle = self.dev.acquire_read();
        let ppm = handle.borrow().ppm;
        handle.release_read();
        ppm
    }

    /// Set the frequency correction (ppm).
    ///
    /// A correction already at the requested value is reported by the
    /// driver with a distinguished status and is success, not an error.
    pub fn set_ppm(&mut self, ppm: i32) -> (r: Result<(), ControlError>)
        ensures
            r is Ok,
            final(self).session() == old(self).session(),
    {
        let (state, handle) = self.dev.acquire_write();
        let (state, res) = ctl_set_ppm(state, ppm);
        handle.release_write(state);
        res
    }

    /// Enable the hardware AGC.
    ///
    /// Note that this also disables manual tuner gain.  The operation is
    /// compound: manual gain mode is left first, then the AGC is switched
    /// on; a failure of the second step is reported as a single failure
    /// without rollback.
    pub fn enable_agc(&mut self) -> (r: Result<(), ControlError>)
        ensures
            r is Ok,
            final(self).session() == old(self).session(),
    {
        let (state, handle) = self.dev.acquire_write();
        let (state, res) = ctl_enable_agc(state);
        handle.release_write(state);
        res
    }

    /// Disable the hardware AGC.
    ///
    /// Note that this also enables manual tuner gain.
    pub fn disable_agc(&mut self) -> (r: Result<(), ControlError>)
        ensures
            r is Ok,
            final(self).session() == old(self).session(),
    {
        let (state, handle) = self.dev.acquire_write();
        let (state, res) = ctl_disable_agc(state);
        handle.release_write(state);
        res
    }

    /// Get the list of valid tuner gain values into the caller's fixed
    /// 32-entry buffer, and say how many entries are valid.
    ///
    /// Each value represents a dB gain with the decimal place shifted
    /// right, so the value 496 represents 49.6 dB.  The first `n` entries
    /// of the buffer hold the table; the entries past `n` are untouched,
    /// and nothing past the buffer's 32 entries is read or written.  A
    /// device reporting no gains, or more than the buffer holds, would be a
    /// broken driver assumption, not a runtime error; the count returned
    /// here never violates the bounds.
    pub fn tuner_gains(&self, gains: &mut TunerGains) -> (n: usize)
        ensures
            1 <= n <= 32,
            forall|i: int| n <= i < 32 ==> final(gains)@[i] == old(gains)@[i],
    {
        let handle = self.dev.acquire_read();
        let state = handle.borrow();
        let n = copy_gain_table(&state.gains, gains);
        handle.release_read();
        n
    }

    /// Get the current tuner gain, in the same format as the values
    /// returned by `tuner_gains`.
    pub fn tuner_gain(&self) -> i32 {
        let handle = self.dev.acquire_read();
        let gain = handle.borrow().tuner_gain;
        handle.release_read();
        gain
    }

    /// Set the tuner gain, in the same format as the values returned by
    /// `tuner_gains`.
    ///
    /// Note that this also disables the hardware AGC's hold on the gain:
    /// manual gain mode is forced on first, and only then is the value
    /// committed, because the tuner refuses a gain committed while it is
    /// still in automatic mode.
    pub fn set_tuner_gain(&mut self, gain: i32) -> (r: Result<(), ControlError>)
        ensures
            r is Ok,
            final(self).session() == old(self).session(),
    {
        let (state, handle) = self.dev.acquire_write();
        let (state, res) = ctl_set_tuner_gain(state, gain);
        handle.release_write(state);
        res
    }

    /// Cancel an asynchronous read if one is running.
    ///
    /// This may be called from any thread while the session's [`Reader`] is
    /// blocked in `read_async`; the blocked call then returns `Ok` once it
    /// observes the request.  With no stream active this is a no-op, and it
    /// never errors.
    pub fn cancel_async_read(&mut self)
        ensures
            final(self).session() == old(self).session(),
    {
        let (state, handle) = self.dev.acquire_write();
        let state = ctl_cancel(state);
        handle.release_write(state);
    }

    /// Reset the device's buffer of incoming samples.
    ///
    /// This clears any samples that have been received by the device but
    /// not yet read by a stream.
    pub fn reset_buffer(&mut self) -> (r: Result<(), ControlError>)
        ensures
            r is Ok,
            final(self).session() == old(self).session(),
    {
        let (state, handle) = self.dev.acquire_write();
        let (state, res) = ctl_reset_buffer(state);
        handle.release_write(state);
        res
    }
}

/// Reads I/Q samples.
///
/// The reader is the unique owner of the right to run the blocking
/// streaming call: only one stream can be active per session, enforced by
/// the call being synchronous rather than by a lock.
pub struct Reader {
    dev: SessionHandle,
}

/// The most chunks one streaming call delivers before the modeled transfer
/// reaches its own terminal condition.  The bound exists so that the
/// streaming loop provably makes progress; it is far beyond what any real
/// session reaches, so in practice a stream ends by cancellation.
pub const MODEL_STREAM_CHUNK_LIMIT: u64 = 0xffff_ffff_ffff_ffff;

impl Reader {
    /// The session this reader shares.
    pub closed spec fn session(&self) -> SessionHandle {
        self.dev
    }

    /// Create a new `Reader` for reading from the given shared session.
    pub fn new(dev: SessionHandle) -> (r: Reader)
        ensures
            r.session() == dev,
    {
        Reader { dev }
    }

    /// Begin reading I/Q samples, buffering into the given number of chunks
    /// with each chunk holding the given number of bytes.  The callback is
    /// called once per chunk, with a borrowed view of at most `len` bytes.
    ///
    /// The call blocks the calling thread until the stream is cancelled
    /// through the session's [`Controller`] or the transfer reaches a
    /// terminal condition; either way it returns `Ok`.  Hardware parameters
    /// can be changed from other threads the whole time.  The callback is
    /// invoked synchronously on this thread, chunk by chunk with no
    /// overlap, and is never invoked again once this call has returned.
    pub fn read_async<F: Fn(&[u8])>(&mut self, bufs: u32, len: u32, cb: F) -> (r: Result<
        (),
        StreamError,
    >)
        requires
            forall|chunk: &[u8]| chunk@.len() <= len ==> call_requires(cb, (chunk,)),
        ensures
            r is Ok,
            final(self).session() == old(self).session(),
    {
        let (state, handle) = self.dev.acquire_write();
        let (state, _status) = drv_stream_enter(state);
        handle.release_write(state);

        // One chunk's worth of the modeled device's sample bytes.
        let mut chunk: Vec<u8> = Vec::new();
        while chunk.len() < len as usize
            invariant
                chunk@.len() <= len,
            decreases len - chunk@.len(),
        {
            chunk.push(0u8);
        }

        let mut fuel: u64 = MODEL_STREAM_CHUNK_LIMIT;
        loop
            invariant
                chunk@.len() <= len,
                forall|c: &[u8]| c@.len() <= len ==> call_requires(cb, (c,)),
            decreases fuel,
        {
            let (state, handle) = self.dev.acquire_write();
            if state.cancel_requested || fuel == 0 {
                // Clean termination: cancellation, or the modeled transfer's
                // own terminal condition.  The session returns to idle and
                // the callback is never invoked again.
                let (state, status) = drv_stream_exit(state);
                handle.release_write(state);
                return stream_outcome(status);
            }
            handle.release_write(state);
            cb(chunk.as_slice());
            fuel = fuel - 1;
        }
    }
}

} // verus!
