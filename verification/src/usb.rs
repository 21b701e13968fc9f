//! The USB bus as the library sees it: the calls into `rusb`, each behind a
//! trusted item, and the error kinds that `rusb` reports, as plain values.
use vstd::prelude::*;
use rusb::{Context, DeviceDescriptor, UsbContext};

verus! {

/// A `rusb` device, in a `libusb` context, kept in a private field; the
/// library reaches it only through the methods of [`UsbDevice`], each of which
/// makes one call into `rusb`.
#[verifier::external_body]
pub struct RawUsbDevice {
    device: rusb::Device<Context>,
}

/// A device on the USB bus, with what it reports of itself: the vendor and
/// product id of its descriptor, the number of its bus and its address there.
/// `libusb` fixes these when it lists the device (it caches the descriptor and
/// keeps the bus number and address in the device's record), so each is one
/// value for the device's whole life; the ghost fields name them.
pub struct UsbDevice {
    raw: RawUsbDevice,
    vendor_id: Ghost<u16>,
    product_id: Ghost<u16>,
    bus_number: Ghost<u8>,
    address: Ghost<u8>,
}

/// A device's descriptor, with the vendor and product id it holds.
pub struct UsbDeviceDescriptor {
    raw: DeviceDescriptor,
    vendor_id: Ghost<u16>,
    product_id: Ghost<u16>,
}

/// An open handle on a USB device, in a `libusb` context.
///
/// The `rusb` handle is kept in a private field; the library reaches it only
/// through the method below.
#[verifier::external_body]
pub struct UsbDeviceHandle {
    handle: rusb::DeviceHandle<Context>,
}

/// `rusb::DeviceDescriptor`, carried through opaque.
#[verifier::external_type_specification]
#[verifier::external_body]
pub struct ExDeviceDescriptor(DeviceDescriptor);

/// `rusb::Error`, a public enum of unit variants, with its variants.
#[verifier::external_type_specification]
pub struct ExRusbError(rusb::Error);

/// The errors that `libusb` reports, one variant for each of `rusb::Error`.
#[derive(Debug, Clone, Copy, PartialEq, Eq, Structural)]
pub enum UsbError {
    Io,
    InvalidParam,
    Access,
    NoDevice,
    NotFound,
    Busy,
    Timeout,
    Overflow,
    Pipe,
    Interrupted,
    NoMem,
    NotSupported,
    BadDescriptor,
    Other,
}

/// The text by which an error describes itself (its `Display` form in `rusb`).
pub open spec fn usb_error_message(e: UsbError) -> Seq<char> {
    match e {
        UsbError::Io => "Input/Output Error"@,
        UsbError::InvalidParam => "Invalid parameter"@,
        UsbError::Access => "Access denied (insufficient permissions)"@,
        UsbError::NoDevice => "No such device (it may have been disconnected)"@,
        UsbError::NotFound => "Entity not found"@,
        UsbError::Busy => "Resource busy"@,
        UsbError::Timeout => "Operation timed out"@,
        UsbError::Overflow => "Overflow"@,
        UsbError::Pipe => "Pipe error"@,
        UsbError::Interrupted => "System call interrupted (perhaps due to signal)"@,
        UsbError::NoMem => "Insufficient memory"@,
        UsbError::NotSupported => "Operation not supported or unimplemented on this platform"@,
        UsbError::BadDescriptor => "Malformed descriptor"@,
        UsbError::Other => "Other error"@,
    }
}

impl UsbError {
    /// The text by which the error describes itself.
    pub fn message(&self) -> (s: String)
        ensures
            s@ == usb_error_message(*self),
    {
        match self {
            UsbError::Io => "Input/Output Error".to_owned(),
            UsbError::InvalidParam => "Invalid parameter".to_owned(),
            UsbError::Access => "Access denied (insufficient permissions)".to_owned(),
            UsbError::NoDevice => "No such device (it may have been disconnected)".to_owned(),
            UsbError::NotFound => "Entity not found".to_owned(),
            UsbError::Busy => "Resource busy".to_owned(),
            UsbError::Timeout => "Operation timed out".to_owned(),
            UsbError::Overflow => "Overflow".to_owned(),
            UsbError::Pipe => "Pipe error".to_owned(),
            UsbError::Interrupted => "System call interrupted (perhaps due to signal)".to_owned(),
            UsbError::NoMem => "Insufficient memory".to_owned(),
            UsbError::NotSupported => "Operation not supported or unimplemented on this platform".to_owned(),
            UsbError::BadDescriptor => "Malformed descriptor".to_owned(),
            UsbError::Other => "Other error".to_owned(),
        }
    }
}

/// The library's name for an error that `rusb` reports: the variant of the
/// same name.
pub open spec fn usb_error_of(e: rusb::Error) -> UsbError {
    match e {
        rusb::Error::Io => UsbError::Io,
        rusb::Error::InvalidParam => UsbError::InvalidParam,
        rusb::Error::Access => UsbError::Access,
        rusb::Error::NoDevice => UsbError::NoDevice,
        rusb::Error::NotFound => UsbError::NotFound,
        rusb::Error::Busy => UsbError::Busy,
        rusb::Error::Timeout => UsbError::Timeout,
        rusb::Error::Overflow => UsbError::Overflow,
        rusb::Error::Pipe => UsbError::Pipe,
        rusb::Error::Interrupted => UsbError::Interrupted,
        rusb::Error::NoMem => UsbError::NoMem,
        rusb::Error::NotSupported => UsbError::NotSupported,
        rusb::Error::BadDescriptor => UsbError::BadDescriptor,
        rusb::Error::Other => UsbError::Other,
    }
}

impl UsbError {
    /// Converts an error that `rusb` reports into the variant of the same name.
    pub fn from_rusb(e: rusb::Error) -> (k: UsbError)
        ensures
            k == usb_error_of(e),
    {
        match e {
            rusb::Error::Io => UsbError::Io,
            rusb::Error::InvalidParam => UsbError::InvalidParam,
            rusb::Error::Access => UsbError::Access,
            rusb::Error::NoDevice => UsbError::NoDevice,
            rusb::Error::NotFound => UsbError::NotFound,
            rusb::Error::Busy => UsbError::Busy,
            rusb::Error::Timeout => UsbError::Timeout,
            rusb::Error::Overflow => UsbError::Overflow,
            rusb::Error::Pipe => UsbError::Pipe,
            rusb::Error::Interrupted => UsbError::Interrupted,
            rusb::Error::NoMem => UsbError::NoMem,
            rusb::Error::NotSupported => UsbError::NotSupported,
            rusb::Error::BadDescriptor => UsbError::BadDescriptor,
            rusb::Error::Other => UsbError::Other,
        }
    }
}

/// `Context::new`, `UsbContext::devices`, then `DeviceList::iter`: the devices
/// attached to the machine now, in the order `libusb` lists them, or the error
/// `libusb` reported. (`rusb::devices` would use the global context, which
/// panics where `libusb` cannot start; a context of its own reports that as an
/// error.) Which devices these are depends on the machine, so nothing is
/// stated of them.
#[verifier::external_body]
pub(crate) fn usb_device_list() -> (r: Result<Vec<UsbDevice>, rusb::Error>) {
    let context = Context::new()?;
    let list = context.devices()?;
    let mut devices = Vec::new();
    for device in list.iter() {
        devices.push(UsbDevice {
            vendor_id: Ghost(match device.device_descriptor() { Ok(d) => d.vendor_id(), Err(_) => 0 }),
            product_id: Ghost(match device.device_descriptor() { Ok(d) => d.product_id(), Err(_) => 0 }),
            bus_number: Ghost(device.bus_number()),
            address: Ghost(device.address()),
            raw: RawUsbDevice { device },
        });
    }
    Ok(devices)
}

impl UsbDevice {
    /// The vendor id in the device's descriptor.
    pub closed spec fn reported_vendor_id(&self) -> u16 {
        self.vendor_id@
    }

    /// The product id in the device's descriptor.
    pub closed spec fn reported_product_id(&self) -> u16 {
        self.product_id@
    }

    /// The number of the bus the device is on.
    pub closed spec fn reported_bus_number(&self) -> u8 {
        self.bus_number@
    }

    /// The device's address on its bus.
    pub closed spec fn reported_address(&self) -> u8 {
        self.address@
    }

    /// `Device::device_descriptor`: the device's descriptor, as `libusb`
    /// cached it, holding the device's vendor and product id. The call always
    /// succeeds: `rusb` notes that `libusb_get_device_descriptor` always
    /// succeeds since libusb 1.0.16, and the libusb that `libusb1-sys` builds
    /// copies the cached descriptor and returns 0.
    #[verifier::external_body]
    pub(crate) fn device_descriptor(&self) -> (r: Result<UsbDeviceDescriptor, rusb::Error>)
        ensures
            r is Ok,
            r->Ok_0.held_vendor_id() == self.reported_vendor_id(),
            r->Ok_0.held_product_id() == self.reported_product_id(),
    {
        match self.raw.device.device_descriptor() {
            Ok(d) => Ok(UsbDeviceDescriptor { vendor_id: Ghost(d.vendor_id()), product_id: Ghost(d.product_id()), raw: d }),
            Err(e) => Err(e),
        }
    }

    /// `Device::bus_number`: the number of the bus the device is on.
    #[verifier::external_body]
    pub(crate) fn bus_number(&self) -> (n: u8)
        ensures
            n == self.reported_bus_number(),
    {
        self.raw.device.bus_number()
    }

    /// `Device::address`: the device's address on its bus.
    #[verifier::external_body]
    pub(crate) fn address(&self) -> (n: u8)
        ensures
            n == self.reported_address(),
    {
        self.raw.device.address()
    }

    /// `Device::get_parent`: the device this one is attached to, if `libusb`
    /// knows one. Which device that is depends on the bus and is not stated.
    #[verifier::external_body]
    pub(crate) fn parent(&self) -> (p: Option<UsbDevice>) {
        match self.raw.device.get_parent() {
            Some(device) => Some(UsbDevice {
                vendor_id: Ghost(match device.device_descriptor() { Ok(d) => d.vendor_id(), Err(_) => 0 }),
                product_id: Ghost(match device.device_descriptor() { Ok(d) => d.product_id(), Err(_) => 0 }),
                bus_number: Ghost(device.bus_number()),
                address: Ghost(device.address()),
                raw: RawUsbDevice { device },
            }),
            None => None,
        }
    }

    /// `Device::open`: a handle on the device, or the error `libusb` reported
    /// (insufficient permissions, most often). Nothing is stated of which.
    #[verifier::external_body]
    pub(crate) fn open(&self) -> (r: Result<UsbDeviceHandle, rusb::Error>) {
        match self.raw.device.open() {
            Ok(handle) => Ok(UsbDeviceHandle { handle }),
            Err(e) => Err(e),
        }
    }
}

impl UsbDeviceDescriptor {
    /// The vendor id the descriptor holds.
    pub closed spec fn held_vendor_id(&self) -> u16 {
        self.vendor_id@
    }

    /// The product id the descriptor holds.
    pub closed spec fn held_product_id(&self) -> u16 {
        self.product_id@
    }

    /// `DeviceDescriptor::vendor_id`: the vendor id the descriptor holds.
    #[verifier::external_body]
    pub(crate) fn vendor_id(&self) -> (v: u16)
        ensures
            v == self.held_vendor_id(),
    {
        self.raw.vendor_id()
    }

    /// `DeviceDescriptor::product_id`: the product id the descriptor holds.
    #[verifier::external_body]
    pub(crate) fn product_id(&self) -> (p: u16)
        ensures
            p == self.held_product_id(),
    {
        self.raw.product_id()
    }
}

impl UsbDeviceHandle {
    /// `DeviceHandle::read_serial_number_string_ascii`: the device's serial
    /// number string, read from the device. What the device answers is not
    /// stated.
    #[verifier::external_body]
    pub(crate) fn read_serial_number_string_ascii(&self, descriptor: &UsbDeviceDescriptor) -> (r: Result<String, rusb::Error>) {
        self.handle.read_serial_number_string_ascii(&descriptor.raw)
    }
}

} // verus!
