//! The result type of the library's fallible operations.
use vstd::prelude::*;
use crate::usb::UsbError;

verus! {

/// What the library's fallible operations return: a value, or the error that
/// `libusb` reported.
pub type Result<T> = core::result::Result<T, UsbError>;

} // verus!
