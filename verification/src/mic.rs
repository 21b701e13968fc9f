//! The devices of a neoVI MIC2 and how they are found on the USB bus.
use vstd::prelude::*;
use crate::types::Result;
use crate::usb::{usb_device_list, usb_error_message, UsbDevice, UsbError};

verus! {

/// The kinds of USB devices that make up a neoVI MIC2.
#[derive(Debug, Clone, Copy, PartialEq, Eq, Structural)]
pub enum UsbDeviceType {
    MicrochipHub,
    FT245R,
    FT245RAccessDenied,
    GPS,
    Audio,
    Unknown,
}

/// The device type that a vendor and product id identify.
pub open spec fn device_type_of(vid: u16, pid: u16) -> UsbDeviceType {
    if vid == 0x0424 && pid == 0x2514 {
        UsbDeviceType::MicrochipHub
    } else if vid == 0x093C && pid == 0x0601 {
        UsbDeviceType::FT245R
    } else if vid == 0x08BB && pid == 0x2912 {
        UsbDeviceType::Audio
    } else if vid == 0x1546 && pid == 0x01A8 {
        UsbDeviceType::GPS
    } else {
        UsbDeviceType::Unknown
    }
}

impl Default for UsbDeviceType {
    fn default() -> (t: Self)
        ensures
            t == UsbDeviceType::Unknown,
    {
        UsbDeviceType::Unknown
    }
}

/// What the library knows of one USB device.
#[derive(Debug)]
pub struct UsbDeviceInfo {
    pub vendor_id: u16,
    pub product_id: u16,
    pub bus_number: u8,
    pub address: u8,
    pub device_type: UsbDeviceType,
    pub serial_number: Option<String>,
}

/// A [`UsbDeviceInfo`] as a mathematical value.
pub struct UsbDeviceInfoView {
    pub vendor_id: u16,
    pub product_id: u16,
    pub bus_number: u8,
    pub address: u8,
    pub device_type: UsbDeviceType,
    pub serial_number: Option<Seq<char>>,
}

pub open spec fn serial_view(s: Option<String>) -> Option<Seq<char>> {
    match s {
        Some(s) => Some(s@),
        None => None,
    }
}

impl View for UsbDeviceInfo {
    type V = UsbDeviceInfoView;

    open spec fn view(&self) -> UsbDeviceInfoView {
        UsbDeviceInfoView {
            vendor_id: self.vendor_id,
            product_id: self.product_id,
            bus_number: self.bus_number,
            address: self.address,
            device_type: self.device_type,
            serial_number: serial_view(self.serial_number),
        }
    }
}

impl UsbDeviceInfoView {
    /// The description of a device as a bus scan makes it: its type is the one
    /// that its ids identify, and no serial number has been read.
    pub open spec fn from_ids(vendor_id: u16, product_id: u16, bus_number: u8, address: u8) -> Self {
        UsbDeviceInfoView {
            vendor_id,
            product_id,
            bus_number,
            address,
            device_type: device_type_of(vendor_id, product_id),
            serial_number: None,
        }
    }

    /// The device as a bus scan describes it.
    pub open spec fn is_scanned(self) -> bool {
        self == Self::from_ids(self.vendor_id, self.product_id, self.bus_number, self.address)
    }

    /// The devices taken for a neoVI MIC2's USB hub: the Microchip USB 2.0
    /// hub, 0424:2514.
    pub open spec fn is_potential_hub(self) -> bool {
        self.vendor_id == 0x0424 && self.product_id == 0x2514
    }

    /// A device found behind a hub: its type is the one its ids identify, and
    /// it carries a serial number exactly when it is an FT245R.
    pub open spec fn is_described_child(self) -> bool {
        &&& self.device_type == device_type_of(self.vendor_id, self.product_id)
        &&& (self.serial_number is Some <==> self.device_type == UsbDeviceType::FT245R)
    }

    pub open spec fn spec_default() -> Self {
        UsbDeviceInfoView {
            vendor_id: 0,
            product_id: 0,
            bus_number: 0,
            address: 0,
            device_type: UsbDeviceType::Unknown,
            serial_number: None,
        }
    }
}

fn same_serial_number(a: &Option<String>, b: &Option<String>) -> (r: bool)
    ensures
        r == (serial_view(*a) == serial_view(*b)),
{
    match (a, b) {
        (Some(a), Some(b)) => *a == *b,
        (None, None) => true,
        _ => false,
    }
}

impl PartialEq for UsbDeviceInfo {
    fn eq(&self, other: &Self) -> (r: bool) {
        self.vendor_id == other.vendor_id && self.product_id == other.product_id
            && self.bus_number == other.bus_number && self.address == other.address
            && self.device_type == other.device_type && same_serial_number(
            &self.serial_number,
            &other.serial_number,
        )
    }
}

impl vstd::std_specs::cmp::PartialEqSpecImpl for UsbDeviceInfo {
    open spec fn obeys_eq_spec() -> bool {
        true
    }

    open spec fn eq_spec(&self, other: &Self) -> bool {
        self@ == other@
    }
}

fn clone_serial_number(s: &Option<String>) -> (r: Option<String>)
    ensures
        serial_view(r) == serial_view(*s),
{
    match s {
        Some(s) => Some(s.clone()),
        None => None,
    }
}

impl Clone for UsbDeviceInfo {
    fn clone(&self) -> (r: Self)
        ensures
            r@ == self@,
    {
        let serial_number = clone_serial_number(&self.serial_number);
        UsbDeviceInfo {
            vendor_id: self.vendor_id,
            product_id: self.product_id,
            bus_number: self.bus_number,
            address: self.address,
            device_type: self.device_type,
            serial_number,
        }
    }
}

impl Default for UsbDeviceInfo {
    fn default() -> (r: Self)
        ensures
            r@ == UsbDeviceInfoView::spec_default(),
    {
        UsbDeviceInfo {
            vendor_id: 0,
            product_id: 0,
            bus_number: 0,
            address: 0,
            device_type: UsbDeviceType::default(),
            serial_number: None,
        }
    }
}

impl UsbDeviceInfo {
    /// Classifies a device by its vendor and product id.
    pub fn usb_device_type_from_vid_pid(vid: &u16, pid: &u16) -> (t: UsbDeviceType)
        ensures
            t == device_type_of(*vid, *pid),
            (t == UsbDeviceType::MicrochipHub) <==> (*vid == 0x0424 && *pid == 0x2514),
            (t == UsbDeviceType::FT245R) <==> (*vid == 0x093C && *pid == 0x0601),
            (t == UsbDeviceType::Audio) <==> (*vid == 0x08BB && *pid == 0x2912),
            (t == UsbDeviceType::GPS) <==> (*vid == 0x1546 && *pid == 0x01A8),
            t != UsbDeviceType::FT245RAccessDenied,
    {
        match (*vid, *pid) {
            (0x0424, 0x2514) => UsbDeviceType::MicrochipHub,
            (0x93C, 0x601) => UsbDeviceType::FT245R,
            (0x8BB, 0x2912) => UsbDeviceType::Audio,
            (0x1546, 0x1A8) => UsbDeviceType::GPS,
            _ => UsbDeviceType::Unknown,
        }
    }

    /// Describes a device from the ids and bus position it reported.
    pub fn from_ids(vendor_id: u16, product_id: u16, bus_number: u8, address: u8) -> (r: Self)
        ensures
            r@ == UsbDeviceInfoView::from_ids(vendor_id, product_id, bus_number, address),
    {
        UsbDeviceInfo {
            vendor_id,
            product_id,
            bus_number,
            address,
            device_type: Self::usb_device_type_from_vid_pid(&vendor_id, &product_id),
            serial_number: None,
        }
    }

    /// Describes a device on the bus, from the ids its descriptor holds and its
    /// bus position. Reading the descriptor does not fail, so neither does this.
    pub fn from_rusb_device(device: &UsbDevice) -> (r: Result<Self>)
        ensures
            r matches Ok(info) && info@.is_scanned(),
            r matches Ok(info) && info@ == reported_info(*device),
            r matches Ok(info) && info.vendor_id == device.reported_vendor_id()
                && info.product_id == device.reported_product_id()
                && info.bus_number == device.reported_bus_number()
                && info.address == device.reported_address() && info.serial_number is None,
    {
        let device_desc = match device.device_descriptor() {
            Ok(d) => d,
            Err(e) => return Err(UsbError::from_rusb(e)),
        };
        let vendor_id = device_desc.vendor_id();
        let product_id = device_desc.product_id();
        Ok(Self::from_ids(vendor_id, product_id, device.bus_number(), device.address()))
    }

    /// Whether the device is taken for a neoVI MIC2's USB hub: the Microchip
    /// USB 2.0 hub, 0424:2514.
    pub fn is_potential_hub(&self) -> (r: bool)
        ensures
            r == self@.is_potential_hub(),
            r == (self.vendor_id == 0x0424 && self.product_id == 0x2514),
    {
        self.vendor_id == 0x0424 && self.product_id == 0x2514
    }

    /// The same device, with the given serial number.
    pub fn with_serial_number(self, serial_number: String) -> (r: Self)
        ensures
            r@ == (UsbDeviceInfoView { serial_number: Some(serial_number@), ..self@ }),
    {
        UsbDeviceInfo { serial_number: Some(serial_number), ..self }
    }
}

/// What a device on the bus reports of itself, as a bus scan describes it.
pub open spec fn reported_info(d: UsbDevice) -> UsbDeviceInfoView {
    UsbDeviceInfoView::from_ids(d.reported_vendor_id(), d.reported_product_id(), d.reported_bus_number(), d.reported_address())
}

/// What the devices of a bus listing report, in listing order.
pub open spec fn reported_scan(devices: Seq<UsbDevice>) -> Seq<UsbDeviceInfoView> {
    devices.map_values(|d: UsbDevice| reported_info(d))
}

/// A neoVI MIC2: its USB hub and the devices attached to it.
#[derive(Debug)]
pub struct NeoVIMIC {
    usb_hub: UsbDeviceInfo,
    usb_children: Vec<UsbDeviceInfo>,
}

/// A [`NeoVIMIC`] as a mathematical value.
pub struct NeoVIMICView {
    pub usb_hub: UsbDeviceInfoView,
    pub usb_children: Seq<UsbDeviceInfoView>,
}

impl View for NeoVIMIC {
    type V = NeoVIMICView;

    closed spec fn view(&self) -> NeoVIMICView {
        NeoVIMICView {
            usb_hub: self.usb_hub@,
            usb_children: view_seq(self.usb_children@),
        }
    }
}

impl NeoVIMICView {
    pub open spec fn spec_default() -> Self {
        NeoVIMICView { usb_hub: UsbDeviceInfoView::spec_default(), usb_children: Seq::empty() }
    }

    /// A device as a bus scan assembles it: a potential hub, described as the
    /// scan found it, with children described as [`UsbDeviceInfoView::is_described_child`] says.
    pub open spec fn is_found_on_bus(self) -> bool {
        &&& self.usb_hub.is_scanned()
        &&& self.usb_hub.is_potential_hub()
        &&& forall|i: int| 0 <= i < self.usb_children.len() ==> #[trigger] self.usb_children[i].is_described_child()
    }
}

impl Clone for NeoVIMIC {
    fn clone(&self) -> (r: Self)
        ensures
            r@ == self@,
    {
        let mut usb_children: Vec<UsbDeviceInfo> = Vec::new();
        let n = self.usb_children.len();
        for i in 0..n
            invariant
                n == self.usb_children.len(),
                view_seq(usb_children@) == view_seq(self.usb_children@).take(i as int),
        {
            let ghost before = view_seq(usb_children@);
            usb_children.push(self.usb_children[i].clone());
            assert(view_seq(usb_children@) =~= before.push(self.usb_children[i as int]@));
            assert(view_seq(self.usb_children@).take(i + 1) =~= view_seq(self.usb_children@).take(i as int).push(self.usb_children[i as int]@));
        }
        assert(view_seq(self.usb_children@).take(n as int) =~= view_seq(self.usb_children@));
        NeoVIMIC { usb_hub: self.usb_hub.clone(), usb_children }
    }
}

impl Default for NeoVIMIC {
    fn default() -> (r: Self)
        ensures
            r@ == NeoVIMICView::spec_default(),
    {
        let r = NeoVIMIC { usb_hub: UsbDeviceInfo::default(), usb_children: Vec::new() };
        assert(r@.usb_children =~= Seq::<UsbDeviceInfoView>::empty());
        r
    }
}

impl NeoVIMIC {
    /// Opens the neoVI MIC2 of the given index. The device is not probed: what
    /// comes back is the empty description.
    pub fn new(_index: u32) -> (r: Result<Self>)
        ensures
            r matches Ok(m) && m@ == NeoVIMICView::spec_default(),
    {
        Ok(NeoVIMIC { ..Default::default() })
    }

    /// Opens the neoVI MIC2 of the given serial number. The device is not
    /// probed: what comes back is the empty description.
    pub fn from_serial_number(serial_number: impl Into<String>) -> (r: Result<Self>)
        ensures
            r matches Ok(m) && m@ == NeoVIMICView::spec_default(),
    {
        Ok(NeoVIMIC { ..Default::default() })
    }

    /// The MIC's USB hub.
    pub fn usb_hub(&self) -> (h: &UsbDeviceInfo)
        ensures
            h@ == self@.usb_hub,
    {
        &self.usb_hub
    }

    /// The devices attached to the MIC's hub, in the order the bus lists them.
    pub fn usb_children(&self) -> (c: &Vec<UsbDeviceInfo>)
        ensures
            view_seq(c@) == self@.usb_children,
    {
        &self.usb_children
    }
}

/// The views of a sequence of device descriptions.
pub open spec fn view_seq(s: Seq<UsbDeviceInfo>) -> Seq<UsbDeviceInfoView> {
    s.map_values(|d: UsbDeviceInfo| d@)
}

/// Whether a device is taken for a neoVI MIC2's hub, as a predicate.
pub open spec fn potential_hub() -> spec_fn(UsbDeviceInfoView) -> bool {
    |d: UsbDeviceInfoView| d.is_potential_hub()
}

/// The potential hubs among the devices of a scan, in scan order.
pub fn select_hubs(scan: &Vec<UsbDeviceInfo>) -> (hubs: Vec<UsbDeviceInfo>)
    ensures
        view_seq(hubs@) == view_seq(scan@).filter(potential_hub()),
{
    let mut hubs: Vec<UsbDeviceInfo> = Vec::new();
    let n = scan.len();
    assert(view_seq(scan@).take(0) =~= Seq::<UsbDeviceInfoView>::empty());
    assert(view_seq(hubs@) =~= Seq::<UsbDeviceInfoView>::empty());
    proof {
        reveal_with_fuel(Seq::<_>::filter, 1);
    }
    for i in 0..n
        invariant
            n == scan.len(),
            view_seq(hubs@) == view_seq(scan@).take(i as int).filter(potential_hub()),
    {
        let ghost before = view_seq(hubs@);
        let ghost prefix = view_seq(scan@).take(i + 1);
        proof {
            reveal_with_fuel(Seq::<_>::filter, 1);
            assert(prefix.drop_last() =~= view_seq(scan@).take(i as int));
            assert(prefix.last() == scan[i as int]@);
        }
        if scan[i].is_potential_hub() {
            hubs.push(scan[i].clone());
            assert(view_seq(hubs@) =~= before.push(scan[i as int]@));
        }
    }
    assert(view_seq(scan@).take(n as int) =~= view_seq(scan@));
    hubs
}

/// How reading an FT245R's serial number went: `Err(e)` where the device
/// could not be opened; otherwise what reading the serial number gave.
pub type SerialRead = core::result::Result<core::result::Result<String, UsbError>, UsbError>;

/// The serial number text that a read records, where it records one: the
/// text of the error where the device could not be opened, the string read
/// where reading succeeded, and none where reading failed.
pub open spec fn recorded_serial_text(read: SerialRead) -> Option<Seq<char>> {
    match read {
        Err(e) => Some(usb_error_message(e)),
        Ok(Ok(s)) => Some(s@),
        Ok(Err(_)) => None,
    }
}

/// The serial number recorded for an FT245R, from how reading it went: where
/// the device could not be opened (`Err(e)`), the text of `e`; where it was
/// opened, what reading the serial number gave.
pub fn recorded_serial(opened: &SerialRead) -> (r: Result<String>)
    ensures
        match *opened {
            Err(e) => r matches Ok(s) && s@ == usb_error_message(e),
            Ok(Ok(read)) => r matches Ok(s) && s@ == read@,
            Ok(Err(e)) => r matches Err(k) && k == e,
        },
{
    match opened {
        Err(e) => Ok(e.message()),
        Ok(Ok(read)) => Ok(read.clone()),
        Ok(Err(e)) => Err(*e),
    }
}

/// Opens an FT245R and reads its serial number. What the device answers is
/// not known beforehand, so nothing is stated of the outcome.
fn read_ft245r_serial_number(device: &UsbDevice) -> (r: SerialRead) {
    match device.open() {
        Ok(handle) => {
            let descriptor = match device.device_descriptor() {
                Ok(d) => d,
                Err(e) => return Ok(Err(UsbError::from_rusb(e))),
            };
            match handle.read_serial_number_string_ascii(&descriptor) {
                Ok(s) => Ok(Ok(s)),
                Err(e) => Ok(Err(UsbError::from_rusb(e))),
            }
        },
        Err(e) => Err(UsbError::from_rusb(e)),
    }
}

/// The view of a device's parent, where it has one.
pub open spec fn parent_view(p: Option<UsbDeviceInfo>) -> Option<UsbDeviceInfoView> {
    match p {
        Some(p) => Some(p@),
        None => None,
    }
}

/// One device of a bus scan made for a hub: its description, its parent's
/// where it has one, how reading its serial number went where it was read,
/// and the serial number recorded for it.
pub struct ScannedDevice {
    pub info: UsbDeviceInfo,
    pub parent: Option<UsbDeviceInfo>,
    pub serial_read: Option<SerialRead>,
    pub serial_number: Option<String>,
}

/// A [`ScannedDevice`] as a mathematical value.
pub struct ScannedDeviceView {
    pub info: UsbDeviceInfoView,
    pub parent: Option<UsbDeviceInfoView>,
    pub serial_read: Option<SerialRead>,
    pub serial_number: Option<Seq<char>>,
}

impl View for ScannedDevice {
    type V = ScannedDeviceView;

    open spec fn view(&self) -> ScannedDeviceView {
        ScannedDeviceView {
            info: self.info@,
            parent: parent_view(self.parent),
            serial_read: self.serial_read,
            serial_number: serial_view(self.serial_number),
        }
    }
}

/// The views of the devices of a scan.
pub open spec fn scan_view(s: Seq<ScannedDevice>) -> Seq<ScannedDeviceView> {
    s.map_values(|d: ScannedDevice| d@)
}

/// Whether a scanned device's parent is `hub`, as a predicate.
pub open spec fn attached_to(hub: UsbDeviceInfoView) -> spec_fn(ScannedDeviceView) -> bool {
    |d: ScannedDeviceView| d.parent == Some(hub)
}

/// A scanned device as a child of its hub: its description, with the recorded
/// serial number where it is an FT245R and none otherwise.
pub open spec fn child_view(d: ScannedDeviceView) -> UsbDeviceInfoView {
    UsbDeviceInfoView {
        serial_number: if d.info.device_type == UsbDeviceType::FT245R {
            d.serial_number
        } else {
            None
        },
        ..d.info
    }
}

/// The children of `hub` among the devices of a scan, in scan order.
pub open spec fn children_in_scan(hub: UsbDeviceInfoView, scan: Seq<ScannedDeviceView>) -> Seq<UsbDeviceInfoView> {
    scan.filter(attached_to(hub)).map_values(|d: ScannedDeviceView| child_view(d))
}

/// The devices of a scan whose parent is `usb_hub`, in scan order, each with
/// its serial number where it is an FT245R.
pub fn children_of_hub(usb_hub: &UsbDeviceInfo, scan: &Vec<ScannedDevice>) -> (c: Vec<UsbDeviceInfo>)
    ensures
        view_seq(c@) == children_in_scan(usb_hub@, scan_view(scan@)),
        forall|i: int| 0 <= i < c.len() ==> exists|k: int| 0 <= k < scan.len()
            && scan[k]@.parent == Some(usb_hub@) && (#[trigger] c[i])@ == child_view(scan[k]@),
        forall|k: int| 0 <= k < scan.len() && (#[trigger] scan[k])@.parent == Some(usb_hub@)
            ==> view_seq(c@).contains(child_view(scan[k]@)),
{
    let ghost sv = scan_view(scan@);
    let ghost pred = attached_to(usb_hub@);
    let mut children: Vec<UsbDeviceInfo> = Vec::new();
    let n = scan.len();
    proof {
        reveal_with_fuel(Seq::<_>::filter, 1);
        assert(sv.take(0) =~= Seq::<ScannedDeviceView>::empty());
        assert(view_seq(children@) =~= Seq::<UsbDeviceInfoView>::empty());
        assert(sv.take(0).filter(pred).map_values(|d: ScannedDeviceView| child_view(d)) =~= Seq::<UsbDeviceInfoView>::empty());
    }
    for i in 0..n
        invariant
            n == scan.len(),
            sv == scan_view(scan@),
            pred == attached_to(usb_hub@),
            view_seq(children@) == sv.take(i as int).filter(pred).map_values(|d: ScannedDeviceView| child_view(d)),
    {
        let ghost before = view_seq(children@);
        let ghost prefix = sv.take(i + 1);
        proof {
            reveal_with_fuel(Seq::<_>::filter, 1);
            assert(prefix.drop_last() =~= sv.take(i as int));
            assert(prefix.last() == scan[i as int]@);
        }
        let is_child = match &scan[i].parent {
            Some(p) => *p == *usb_hub,
            None => false,
        };
        if is_child {
            let mut child = scan[i].info.clone();
            child.serial_number = if scan[i].info.device_type == UsbDeviceType::FT245R {
                clone_serial_number(&scan[i].serial_number)
            } else {
                None
            };
            assert(child@ == child_view(scan[i as int]@));
            children.push(child);
            let ghost filtered = sv.take(i as int).filter(pred);
            assert(prefix.filter(pred) == filtered.push(scan[i as int]@));
            assert(filtered.push(scan[i as int]@).map_values(|d: ScannedDeviceView| child_view(d))
                =~= filtered.map_values(|d: ScannedDeviceView| child_view(d)).push(child_view(scan[i as int]@)));
            assert(view_seq(children@) =~= before.push(child_view(scan[i as int]@)));
        }
    }
    assert(sv.take(n as int) =~= sv);
    proof {
        lemma_children_are_devices_attached_to_hub(usb_hub@, sv);
        assert forall|i: int| 0 <= i < children.len() implies exists|k: int| 0 <= k < scan.len()
            && scan[k]@.parent == Some(usb_hub@) && (#[trigger] children[i])@ == child_view(scan[k]@) by {
            assert(view_seq(children@)[i] == children[i]@);
            let k = choose|k: int| 0 <= k < sv.len() && sv[k].parent == Some(usb_hub@)
                && children_in_scan(usb_hub@, sv)[i] == child_view(sv[k]);
            assert(sv[k] == scan[k]@);
        }
        assert forall|k: int| 0 <= k < scan.len() && (#[trigger] scan[k])@.parent == Some(usb_hub@)
            implies view_seq(children@).contains(child_view(scan[k]@)) by {
            assert(sv[k] == scan[k]@);
        }
    }
    children
}

/// A device of a scan is a child of a hub exactly when its parent is that hub,
/// equal in every field (ids, bus number and address): every child comes from
/// a device whose parent is the hub, and every such device gives a child.
pub proof fn lemma_children_are_devices_attached_to_hub(hub: UsbDeviceInfoView, scan: Seq<ScannedDeviceView>)
    ensures
        forall|i: int| 0 <= i < children_in_scan(hub, scan).len() ==> exists|k: int| 0 <= k < scan.len()
            && scan[k].parent == Some(hub) && #[trigger] children_in_scan(hub, scan)[i] == child_view(scan[k]),
        forall|k: int| 0 <= k < scan.len() && (#[trigger] scan[k]).parent == Some(hub)
            ==> children_in_scan(hub, scan).contains(child_view(scan[k])),
{
    let pred = attached_to(hub);
    let f = scan.filter(pred);
    assert forall|i: int| 0 <= i < children_in_scan(hub, scan).len() implies exists|k: int| 0 <= k < scan.len()
        && scan[k].parent == Some(hub) && #[trigger] children_in_scan(hub, scan)[i] == child_view(scan[k]) by {
        scan.lemma_filter_pred(pred, i);
        assert(f.contains(f[i]));
        scan.lemma_filter_contains_rev(pred, f[i]);
        let k = choose|k: int| 0 <= k < scan.len() && scan[k] == f[i];
        assert(children_in_scan(hub, scan)[i] == child_view(f[i]));
    }
    assert forall|k: int| 0 <= k < scan.len() && (#[trigger] scan[k]).parent == Some(hub)
        implies children_in_scan(hub, scan).contains(child_view(scan[k])) by {
        scan.lemma_filter_contains(pred, k);
        let j = choose|j: int| 0 <= j < f.len() && f[j] == scan[k];
        assert(children_in_scan(hub, scan)[j] == child_view(scan[k]));
    }
}

/// The MICs made of `usb_hubs` and the children found for each, in order.
pub fn assemble_mics(usb_hubs: Vec<UsbDeviceInfo>, children: Vec<Vec<UsbDeviceInfo>>) -> (m: Vec<NeoVIMIC>)
    requires
        usb_hubs.len() == children.len(),
    ensures
        m.len() == usb_hubs.len(),
        forall|i: int| 0 <= i < m.len() ==> (#[trigger] m[i])@ == (NeoVIMICView {
            usb_hub: usb_hubs[i]@,
            usb_children: view_seq(children[i]@),
        }),
{
    let ghost h0 = usb_hubs@;
    let ghost k0 = children@;
    let mut hubs = usb_hubs;
    let mut kids = children;
    let mut m: Vec<NeoVIMIC> = Vec::new();
    while hubs.len() > 0
        invariant
            hubs.len() == kids.len(),
            h0.len() == k0.len(),
            hubs.len() <= h0.len(),
            hubs@ == h0.take(hubs.len() as int),
            kids@ == k0.take(kids.len() as int),
            m.len() + hubs.len() == h0.len(),
            forall|j: int| 0 <= j < m.len() ==> (#[trigger] m[j])@ == (NeoVIMICView {
                usb_hub: h0[hubs.len() + j]@,
                usb_children: view_seq(k0[hubs.len() + j]@),
            }),
        decreases hubs.len(),
    {
        let ghost len = hubs.len();
        let usb_hub = hubs.pop().unwrap();
        let usb_children = kids.pop().unwrap();
        assert(hubs@ =~= h0.take(len - 1));
        assert(kids@ =~= k0.take(len - 1));
        let mic = NeoVIMIC { usb_hub, usb_children };
        m.insert(0, mic);
    }
    m
}

/// Each device of a scan made for `hub` is described as a bus scan describes
/// it, so is its parent; its serial number is read exactly when it is an
/// FT245R attached to `hub`, that read records a text, and the serial number
/// recorded for it is that text (none where it was not read).
pub open spec fn is_rescan_for(hub: UsbDeviceInfoView, scan: Seq<ScannedDeviceView>) -> bool {
    forall|i: int| 0 <= i < scan.len() ==> {
        &&& (#[trigger] scan[i]).info.is_scanned()
        &&& (scan[i].parent matches Some(p) ==> p.is_scanned())
        &&& (scan[i].serial_read is Some <==> (scan[i].parent == Some(hub)
            && scan[i].info.device_type == UsbDeviceType::FT245R))
        &&& (scan[i].serial_read matches Some(read) ==> recorded_serial_text(read) is Some)
        &&& scan[i].serial_number == match scan[i].serial_read {
            Some(read) => recorded_serial_text(read),
            None => None,
        }
    }
}

/// The MICs that a first scan and one further scan per hub give: one MIC for
/// each potential hub of the first scan, in scan order, with the children that
/// the hub's scan finds attached to it.
pub open spec fn mics_of_scans(scan: Seq<UsbDeviceInfoView>, rescans: Seq<Seq<ScannedDeviceView>>) -> Seq<NeoVIMICView> {
    let hubs = scan.filter(potential_hub());
    Seq::new(hubs.len(), |i: int| NeoVIMICView {
        usb_hub: hubs[i],
        usb_children: children_in_scan(hubs[i], rescans[i]),
    })
}

/// `mics` are what a first scan `scan` and the hubs' scans `rescans`, made as
/// the bus scans make them, give.
pub open spec fn is_assembled_from(mics: Seq<NeoVIMICView>, scan: Seq<UsbDeviceInfoView>, rescans: Seq<Seq<ScannedDeviceView>>) -> bool {
    &&& forall|i: int| 0 <= i < scan.len() ==> (#[trigger] scan[i]).is_scanned()
    &&& rescans.len() == scan.filter(potential_hub()).len()
    &&& forall|i: int| 0 <= i < rescans.len() ==> is_rescan_for(scan.filter(potential_hub())[i], #[trigger] rescans[i])
    &&& mics == mics_of_scans(scan, rescans)
}

/// The views of a list of MICs.
pub open spec fn mics_view(mics: Seq<NeoVIMIC>) -> Seq<NeoVIMICView> {
    mics.map_values(|m: NeoVIMIC| m@)
}

/// Scans the bus again for `usb_hub`: each device with its parent, and, for
/// each FT245R attached to `usb_hub`, its serial number. Fails where an
/// FT245R's serial number cannot be read.
fn rescan_for_hub(usb_hub: &UsbDeviceInfo, devices: &Vec<UsbDevice>) -> (r: Result<Vec<ScannedDevice>>)
    ensures
        r matches Ok(scan) ==> scan.len() == devices.len() && is_rescan_for(usb_hub@, scan_view(scan@)),
{
    let mut scan: Vec<ScannedDevice> = Vec::new();
    let n = devices.len();
    for i in 0..n
        invariant
            n == devices.len(),
            scan.len() == i,
            is_rescan_for(usb_hub@, scan_view(scan@)),
    {
        let device = &devices[i];
        let parent = match device.parent() {
            Some(p) => Some(UsbDeviceInfo::from_rusb_device(&p)?),
            None => None,
        };
        let info = UsbDeviceInfo::from_rusb_device(device)?;
        let is_child = match &parent {
            Some(p) => *p == *usb_hub,
            None => false,
        };
        let (serial_read, serial_number) = if is_child && info.device_type == UsbDeviceType::FT245R {
            let read = read_ft245r_serial_number(device);
            let serial_number = recorded_serial(&read)?;
            (Some(read), Some(serial_number))
        } else {
            (None, None)
        };
        let ghost before = scan_view(scan@);
        scan.push(ScannedDevice { info, parent, serial_read, serial_number });
        assert(scan_view(scan@) =~= before.push(scan[i as int]@));
    }
    Ok(scan)
}

/// The children that a scan made for a hub gives are described as
/// [`UsbDeviceInfoView::is_described_child`] says.
pub proof fn lemma_rescan_children_described(hub: UsbDeviceInfoView, scan: Seq<ScannedDeviceView>)
    requires
        is_rescan_for(hub, scan),
    ensures
        forall|i: int| 0 <= i < children_in_scan(hub, scan).len() ==> (#[trigger] children_in_scan(hub, scan)[i]).is_described_child(),
{
    let pred = attached_to(hub);
    let f = scan.filter(pred);
    assert forall|i: int| 0 <= i < children_in_scan(hub, scan).len() implies (#[trigger] children_in_scan(hub, scan)[i]).is_described_child() by {
        scan.lemma_filter_pred(pred, i);
        assert(f.contains(f[i]));
        scan.lemma_filter_contains_rev(pred, f[i]);
        let k = choose|k: int| 0 <= k < scan.len() && scan[k] == f[i];
        assert(scan[k].info.is_scanned());
    }
}

/// Finds the neoVI MIC2s on the USB bus: one for each potential hub of a first
/// scan, in scan order, with the devices that a fresh scan finds attached to
/// it. Fails with the error `libusb` reported where the bus cannot be listed or
/// an FT245R's serial number cannot be read.
pub fn find_neovi_mics() -> (r: Result<Vec<NeoVIMIC>>)
    ensures
        r matches Ok(mics) ==> exists|scan: Seq<UsbDeviceInfoView>, rescans: Seq<Seq<ScannedDeviceView>>|
            #[trigger] is_assembled_from(mics_view(mics@), scan, rescans),
        r matches Ok(mics) ==> forall|i: int| 0 <= i < mics.len() ==> (#[trigger] mics[i])@.is_found_on_bus(),
{
    let devices = match usb_device_list() {
        Ok(d) => d,
        Err(e) => return Err(UsbError::from_rusb(e)),
    };
    let r = find_neovi_mics_in(&devices);
    proof {
        if r is Ok {
            let rescans = choose|rescans: Seq<Seq<ScannedDeviceView>>|
                #[trigger] is_assembled_from(mics_view(r->Ok_0@), reported_scan(devices@), rescans);
            assert(is_assembled_from(mics_view(r->Ok_0@), reported_scan(devices@), rescans));
        }
    }
    r
}

/// The neoVI MIC2s of a bus listing `devices`: one for each potential hub
/// among them, in listing order, with the devices that a fresh scan finds
/// attached to it. Fails with the error `libusb` reported where the bus cannot
/// be listed again or an FT245R's serial number cannot be read.
pub fn find_neovi_mics_in(devices: &Vec<UsbDevice>) -> (r: Result<Vec<NeoVIMIC>>)
    ensures
        r matches Ok(mics) ==> exists|rescans: Seq<Seq<ScannedDeviceView>>|
            #[trigger] is_assembled_from(mics_view(mics@), reported_scan(devices@), rescans),
        r matches Ok(mics) ==> forall|i: int| 0 <= i < mics.len() ==> (#[trigger] mics[i])@.is_found_on_bus(),
{
    let mut scan: Vec<UsbDeviceInfo> = Vec::new();
    let n = devices.len();
    for i in 0..n
        invariant
            n == devices.len(),
            scan.len() == i,
            forall|j: int| 0 <= j < i ==> (#[trigger] scan[j])@ == reported_info(devices[j]),
    {
        let device = UsbDeviceInfo::from_rusb_device(&devices[i])?;
        scan.push(device);
    }
    assert(view_seq(scan@) =~= reported_scan(devices@));
    let usb_hubs = select_hubs(&scan);
    let ghost scan_v = view_seq(scan@);
    let ghost hubs_v = scan_v.filter(potential_hub());
    proof {
        assert forall|j: int| 0 <= j < scan_v.len() implies (#[trigger] scan_v[j]).is_scanned() by {
            assert(scan_v[j] == scan[j]@);
        }
        assert forall|j: int| 0 <= j < usb_hubs.len() implies {
            &&& (#[trigger] usb_hubs[j])@.is_scanned()
            &&& usb_hubs[j]@.is_potential_hub()
        } by {
            let pred = potential_hub();
            assert(view_seq(usb_hubs@)[j] == usb_hubs[j]@);
            assert(scan_v.filter(pred).contains(usb_hubs[j]@));
            scan_v.lemma_filter_pred(pred, j);
            scan_v.lemma_filter_contains_rev(pred, usb_hubs[j]@);
            let k = choose|k: int| 0 <= k < scan_v.len() && scan_v[k] == usb_hubs[j]@;
            assert(scan_v[k] == scan[k]@);
        }
    }

    let mut children: Vec<Vec<UsbDeviceInfo>> = Vec::new();
    let ghost mut rescans: Seq<Seq<ScannedDeviceView>> = Seq::empty();
    let h = usb_hubs.len();
    for k in 0..h
        invariant
            h == usb_hubs.len(),
            hubs_v == view_seq(usb_hubs@),
            children.len() == k,
            rescans.len() == k,
            forall|j: int| 0 <= j < k ==> is_rescan_for(hubs_v[j], #[trigger] rescans[j]),
            forall|j: int| 0 <= j < k ==> view_seq((#[trigger] children[j])@) == children_in_scan(hubs_v[j], rescans[j]),
    {
        let devices = match usb_device_list() {
            Ok(d) => d,
            Err(e) => return Err(UsbError::from_rusb(e)),
        };
        let rescan = rescan_for_hub(&usb_hubs[k], &devices)?;
        let usb_children = children_of_hub(&usb_hubs[k], &rescan);
        assert(usb_hubs[k as int]@ == hubs_v[k as int]);
        proof {
            rescans = rescans.push(scan_view(rescan@));
        }
        children.push(usb_children);
    }
    let ghost hubs_seq = usb_hubs@;
    let ghost children_seq = children@;
    let mics = assemble_mics(usb_hubs, children);
    proof {
        assert(mics_view(mics@) =~= mics_of_scans(scan_v, rescans)) by {
            assert forall|i: int| 0 <= i < mics.len() implies mics_view(mics@)[i] == mics_of_scans(scan_v, rescans)[i] by {
                assert(mics[i]@ == NeoVIMICView { usb_hub: hubs_seq[i]@, usb_children: view_seq(children_seq[i]@) });
                assert(view_seq(hubs_seq)[i] == hubs_seq[i]@);
            }
        }
        assert forall|i: int| 0 <= i < mics.len() implies (#[trigger] mics[i])@.is_found_on_bus() by {
            assert(mics[i]@ == NeoVIMICView { usb_hub: hubs_seq[i]@, usb_children: view_seq(children_seq[i]@) });
            assert(view_seq(hubs_seq)[i] == hubs_seq[i]@);
            lemma_rescan_children_described(hubs_v[i], rescans[i]);
            assert(hubs_seq[i]@.is_scanned());
        }
    }
    assert(is_assembled_from(mics_view(mics@), scan_v, rescans));
    let r: Result<Vec<NeoVIMIC>> = Ok(mics);
    assert(r matches Ok(m) ==> exists|rs: Seq<Seq<ScannedDeviceView>>|
        #[trigger] is_assembled_from(mics_view(m@), reported_scan(devices@), rs)) by {
        assert(r matches Ok(m) && is_assembled_from(mics_view(m@), reported_scan(devices@), rescans));
    }
    r
}

/// The classification table: 0424:2514 is the Microchip hub, 093C:0601 the
/// FT245R, 08BB:2912 the audio device, 1546:01A8 the GPS, and every other pair
/// of ids is unknown.
pub proof fn lemma_classification_table(vid: u16, pid: u16)
    ensures
        (device_type_of(vid, pid) == UsbDeviceType::MicrochipHub) <==> (vid == 0x0424 && pid == 0x2514),
        (device_type_of(vid, pid) == UsbDeviceType::FT245R) <==> (vid == 0x093C && pid == 0x0601),
        (device_type_of(vid, pid) == UsbDeviceType::Audio) <==> (vid == 0x08BB && pid == 0x2912),
        (device_type_of(vid, pid) == UsbDeviceType::GPS) <==> (vid == 0x1546 && pid == 0x01A8),
        (device_type_of(vid, pid) == UsbDeviceType::Unknown) <==> !(
            (vid == 0x0424 && pid == 0x2514) || (vid == 0x093C && pid == 0x0601)
            || (vid == 0x08BB && pid == 0x2912) || (vid == 0x1546 && pid == 0x01A8)),
{
}

/// A device is taken for a neoVI MIC2 hub exactly when its vendor id is 0x0424
/// and its product id 0x2514.
pub proof fn lemma_potential_hub_ids(d: UsbDeviceInfoView)
    ensures
        d.is_potential_hub() <==> (d.vendor_id == 0x0424 && d.product_id == 0x2514),
{
}

/// Every device of a bus listing that reports the ids 0424:2514 is the hub of
/// one of the MICs made from that listing, and every MIC's hub is such a
/// device of the listing.
pub proof fn lemma_every_listed_hub_yields_a_mic(
    devices: Seq<UsbDevice>,
    mics: Seq<NeoVIMICView>,
    rescans: Seq<Seq<ScannedDeviceView>>,
)
    requires
        is_assembled_from(mics, reported_scan(devices), rescans),
    ensures
        forall|i: int| 0 <= i < devices.len() && (#[trigger] devices[i]).reported_vendor_id() == 0x0424
            && devices[i].reported_product_id() == 0x2514
            ==> exists|j: int| 0 <= j < mics.len() && #[trigger] mics[j].usb_hub == reported_info(devices[i]),
        forall|j: int| 0 <= j < mics.len() ==> exists|i: int| 0 <= i < devices.len()
            && (#[trigger] mics[j]).usb_hub == reported_info(devices[i])
            && devices[i].reported_vendor_id() == 0x0424 && devices[i].reported_product_id() == 0x2514,
{
    let scan = reported_scan(devices);
    let pred = potential_hub();
    let hubs = scan.filter(pred);
    assert forall|i: int| 0 <= i < devices.len() && (#[trigger] devices[i]).reported_vendor_id() == 0x0424
        && devices[i].reported_product_id() == 0x2514
        implies exists|j: int| 0 <= j < mics.len() && #[trigger] mics[j].usb_hub == reported_info(devices[i]) by {
        assert(scan[i] == reported_info(devices[i]));
        scan.lemma_filter_contains(pred, i);
        let j = choose|j: int| 0 <= j < hubs.len() && hubs[j] == scan[i];
        assert(mics[j].usb_hub == hubs[j]);
    }
    assert forall|j: int| 0 <= j < mics.len() implies exists|i: int| 0 <= i < devices.len()
        && (#[trigger] mics[j]).usb_hub == reported_info(devices[i])
        && devices[i].reported_vendor_id() == 0x0424 && devices[i].reported_product_id() == 0x2514 by {
        assert(mics[j].usb_hub == hubs[j]);
        scan.lemma_filter_pred(pred, j);
        assert(hubs.contains(hubs[j]));
        scan.lemma_filter_contains_rev(pred, hubs[j]);
        let i = choose|i: int| 0 <= i < scan.len() && scan[i] == hubs[j];
        assert(scan[i] == reported_info(devices[i]));
    }
}

/// A device is taken for a neoVI MIC2 hub exactly when its ids identify it as
/// the Microchip hub.
pub proof fn lemma_potential_hub_is_microchip_hub(d: UsbDeviceInfoView)
    requires
        d.device_type == device_type_of(d.vendor_id, d.product_id),
    ensures
        d.is_potential_hub() <==> d.device_type == UsbDeviceType::MicrochipHub,
{
}

/// Classification by ids never yields the access-denied FT245R: that kind is
/// not one that a bus scan produces.
pub proof fn lemma_classification_never_access_denied(vid: u16, pid: u16)
    ensures
        device_type_of(vid, pid) != UsbDeviceType::FT245RAccessDenied,
{
}

/// A device as a bus scan describes it becomes a described child of its hub by
/// attaching a serial number exactly when it is an FT245R.
pub proof fn lemma_scanned_device_becomes_described_child(d: UsbDeviceInfoView, serial_number: Seq<char>)
    requires
        d.is_scanned(),
    ensures
        d.device_type == UsbDeviceType::FT245R ==> (UsbDeviceInfoView {
            serial_number: Some(serial_number),
            ..d
        }).is_described_child(),
        d.device_type != UsbDeviceType::FT245R ==> d.is_described_child(),
{
}

/// The empty description of a device agrees with the classification of its
/// (zero) ids, as a bus scan would describe it.
pub proof fn lemma_default_info_is_scanned()
    ensures
        UsbDeviceInfoView::spec_default().is_scanned(),
{
}

/// Selecting the hubs among selected hubs changes nothing.
pub proof fn lemma_select_hubs_idempotent(scan: Seq<UsbDeviceInfoView>)
    ensures
        scan.filter(potential_hub()).filter(potential_hub()) == scan.filter(potential_hub()),
    decreases scan.len(),
{
    reveal_with_fuel(Seq::<_>::filter, 1);
    if scan.len() > 0 {
        lemma_select_hubs_idempotent(scan.drop_last());
        let rest = scan.drop_last().filter(potential_hub());
        if potential_hub()(scan.last()) {
            assert(rest.push(scan.last()).drop_last() =~= rest);
        }
    }
}

} // verus!
