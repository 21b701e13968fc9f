//! Discovery and description of neoVI MIC2 devices on the USB bus.

pub mod mic;
pub mod types;
pub mod usb;
