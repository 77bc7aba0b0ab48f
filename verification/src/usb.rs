//! Descriptive USB information for an enumerated device.

use vstd::prelude::*;

verus! {

/// What the USB descriptor strings of one enumerated device say, together
/// with the device's index and the status of the query that fetched them.
/// A binding over the native driver fills one of these per device; a query
/// that failed is reported through `error` with placeholder strings, so
/// that enumeration itself never aborts.
#[derive(Debug)]
pub struct UsbInfo {
    /// The manufacturer string of the device.
    pub manufact: String,
    /// The product string of the device.
    pub product: String,
    /// The serial-number string of the device.
    pub serial: String,
    /// The index the device was enumerated at; the device can be opened at
    /// this index.
    pub index: u32,
    /// The status of the descriptor query: zero when the strings are valid,
    /// the driver's negative status otherwise.
    pub error: i32,
}

} // verus!
