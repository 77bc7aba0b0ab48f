//! A control/streaming split for an RTL-SDR USB dongle.
//!
//! One physical device session is shared by two cooperating handles: a
//! [`Controller`] that reads and writes tuning parameters, and a [`Reader`]
//! that runs the blocking sample stream.  The controller may be used from a
//! different thread while the reader is blocked mid-stream, and it is the
//! controller that cancels an in-progress stream.
//!
//! The session itself is modeled here as explicit state with verified
//! transitions; the native driver that talks to the USB hardware is an
//! external collaborator, and a binding over it reuses the same transition
//! and status-interpretation functions.

pub mod errors;
pub mod control;
pub mod device;
pub mod laws;
pub mod outcome;
pub mod session;
pub mod usb;

pub use errors::ControlError;
pub use errors::OpenError;
pub use errors::StreamError;

pub use device::DeviceState;
pub use device::rtlsdr_tuner;

pub use usb::UsbInfo;

pub use session::Controller;
pub use session::Reader;
pub use session::TunerGains;
pub use session::open;
