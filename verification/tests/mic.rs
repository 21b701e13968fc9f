use neovi_mic_rs::mic::{
    assemble_mics, children_of_hub, find_neovi_mics, recorded_serial, select_hubs, NeoVIMIC, ScannedDevice,
    UsbDeviceInfo, UsbDeviceType,
};
use neovi_mic_rs::usb::UsbError;

fn info(vendor_id: u16, product_id: u16) -> UsbDeviceInfo {
    UsbDeviceInfo::from_ids(vendor_id, product_id, 1, 4)
}

#[test]
fn find_neovi_mics_returns_hubs_or_an_error() {
    match find_neovi_mics() {
        Ok(mics) => {
            for mic in &mics {
                assert!(mic.usb_hub().is_potential_hub());
                assert_eq!(mic.usb_hub().device_type, UsbDeviceType::MicrochipHub);
                assert_eq!(mic.usb_hub().serial_number, None);
                for child in mic.usb_children() {
                    assert_eq!(child.serial_number.is_some(), child.device_type == UsbDeviceType::FT245R);
                }
            }
        }
        Err(e) => println!("no USB bus here: {}", e.message()),
    }
}

#[test]
fn classifies_known_ids() {
    assert_eq!(UsbDeviceInfo::usb_device_type_from_vid_pid(&0x0424, &0x2514), UsbDeviceType::MicrochipHub);
    assert_eq!(UsbDeviceInfo::usb_device_type_from_vid_pid(&0x093C, &0x0601), UsbDeviceType::FT245R);
    assert_eq!(UsbDeviceInfo::usb_device_type_from_vid_pid(&0x08BB, &0x2912), UsbDeviceType::Audio);
    assert_eq!(UsbDeviceInfo::usb_device_type_from_vid_pid(&0x1546, &0x01A8), UsbDeviceType::GPS);
}

#[test]
fn classifies_other_ids_as_unknown() {
    assert_eq!(UsbDeviceInfo::usb_device_type_from_vid_pid(&0x2514, &0x0424), UsbDeviceType::Unknown);
    assert_eq!(UsbDeviceInfo::usb_device_type_from_vid_pid(&0x0424, &0x2513), UsbDeviceType::Unknown);
    assert_eq!(UsbDeviceInfo::usb_device_type_from_vid_pid(&0x093C, &0x2514), UsbDeviceType::Unknown);
    assert_eq!(UsbDeviceInfo::usb_device_type_from_vid_pid(&0, &0), UsbDeviceType::Unknown);
}

#[test]
fn defaults_are_empty() {
    assert_eq!(UsbDeviceType::default(), UsbDeviceType::Unknown);
    let d = UsbDeviceInfo::default();
    assert_eq!(d.vendor_id, 0);
    assert_eq!(d.product_id, 0);
    assert_eq!(d.bus_number, 0);
    assert_eq!(d.address, 0);
    assert_eq!(d.device_type, UsbDeviceType::Unknown);
    assert_eq!(d.serial_number, None);
    assert!(d == UsbDeviceInfo::from_ids(0, 0, 0, 0));
}

#[test]
fn from_ids_describes_device() {
    let d = UsbDeviceInfo::from_ids(0x093C, 0x0601, 3, 17);
    assert_eq!(d.vendor_id, 0x093C);
    assert_eq!(d.product_id, 0x0601);
    assert_eq!(d.bus_number, 3);
    assert_eq!(d.address, 17);
    assert_eq!(d.device_type, UsbDeviceType::FT245R);
    assert_eq!(d.serial_number, None);
}

#[test]
fn potential_hub_is_the_microchip_hub() {
    assert!(info(0x0424, 0x2514).is_potential_hub());
    assert!(!info(0x0424, 0x0001).is_potential_hub());
    assert!(!info(0x0001, 0x2514).is_potential_hub());
    assert!(!info(0x2514, 0x0424).is_potential_hub());
    assert!(!info(0x093C, 0x0601).is_potential_hub());
}

#[test]
fn microchip_hub_is_potential_hub() {
    let hub = info(0x0424, 0x2514);
    assert_eq!(hub.device_type, UsbDeviceType::MicrochipHub);
    assert!(hub.is_potential_hub());
}

#[test]
fn with_serial_number_keeps_the_rest() {
    let d = info(0x093C, 0x0601).with_serial_number("MC1234".to_string());
    assert_eq!(d.serial_number, Some("MC1234".to_string()));
    assert_eq!(d.vendor_id, 0x093C);
    assert_eq!(d.product_id, 0x0601);
    assert_eq!(d.bus_number, 1);
    assert_eq!(d.address, 4);
    assert_eq!(d.device_type, UsbDeviceType::FT245R);
}

#[test]
fn equality_compares_every_field() {
    assert!(info(0x0424, 0x2514) == info(0x0424, 0x2514));
    assert!(info(0x0424, 0x2514) != UsbDeviceInfo::from_ids(0x0424, 0x2514, 1, 5));
    assert!(info(0x0424, 0x2514) != UsbDeviceInfo::from_ids(0x0424, 0x2514, 2, 4));
    let a = info(0x093C, 0x0601).with_serial_number("A".to_string());
    let b = info(0x093C, 0x0601).with_serial_number("B".to_string());
    assert!(a != b);
    assert!(a != info(0x093C, 0x0601));
    assert!(a == a.clone());
}

#[test]
fn select_hubs_keeps_scan_order() {
    let scan = vec![
        info(0x093C, 0x0601),
        info(0x0424, 0x2514),
        info(0x1546, 0x01A8),
        UsbDeviceInfo::from_ids(0x0001, 0x2514, 2, 9),
        info(0x0424, 0x0002),
        UsbDeviceInfo::from_ids(0x0424, 0x2514, 3, 2),
    ];
    let hubs = select_hubs(&scan);
    assert_eq!(hubs.len(), 2);
    assert!(hubs[0] == scan[1]);
    assert!(hubs[1] == scan[5]);
    let again = select_hubs(&hubs);
    assert_eq!(again.len(), 2);
    assert!(again[0] == hubs[0] && again[1] == hubs[1]);
}

#[test]
fn select_hubs_of_no_hubs_is_empty() {
    assert!(select_hubs(&vec![info(0x093C, 0x0601), info(0x08BB, 0x2912)]).is_empty());
    assert!(select_hubs(&vec![info(0x0424, 0x0001), info(0x0001, 0x2514)]).is_empty());
    assert!(select_hubs(&Vec::new()).is_empty());
}

#[test]
fn new_gives_empty_mic() {
    let mic = NeoVIMIC::new(0).unwrap();
    assert!(*mic.usb_hub() == UsbDeviceInfo::default());
    assert!(mic.usb_children().is_empty());
    let mic = NeoVIMIC::new(7).unwrap();
    assert!(*mic.usb_hub() == UsbDeviceInfo::default());
}

#[test]
fn from_serial_number_gives_empty_mic() {
    let mic = NeoVIMIC::from_serial_number("MC0042").unwrap();
    assert!(*mic.usb_hub() == UsbDeviceInfo::default());
    assert!(mic.usb_children().is_empty());
    let mic = NeoVIMIC::from_serial_number(String::from("MC0001")).unwrap();
    assert!(mic.usb_children().is_empty());
}

#[test]
fn clone_of_mic_is_equal() {
    let mic = NeoVIMIC::default();
    let copy = mic.clone();
    assert!(*copy.usb_hub() == *mic.usb_hub());
    assert_eq!(copy.usb_children().len(), mic.usb_children().len());
}

#[test]
fn usb_error_messages() {
    assert_eq!(UsbError::Io.message(), "Input/Output Error");
    assert_eq!(UsbError::InvalidParam.message(), "Invalid parameter");
    assert_eq!(UsbError::Access.message(), "Access denied (insufficient permissions)");
    assert_eq!(UsbError::NoDevice.message(), "No such device (it may have been disconnected)");
    assert_eq!(UsbError::NotFound.message(), "Entity not found");
    assert_eq!(UsbError::Busy.message(), "Resource busy");
    assert_eq!(UsbError::Timeout.message(), "Operation timed out");
    assert_eq!(UsbError::Overflow.message(), "Overflow");
    assert_eq!(UsbError::Pipe.message(), "Pipe error");
    assert_eq!(UsbError::Interrupted.message(), "System call interrupted (perhaps due to signal)");
    assert_eq!(UsbError::NoMem.message(), "Insufficient memory");
    assert_eq!(UsbError::NotSupported.message(), "Operation not supported or unimplemented on this platform");
    assert_eq!(UsbError::BadDescriptor.message(), "Malformed descriptor");
    assert_eq!(UsbError::Other.message(), "Other error");
}

#[test]
fn from_rusb_names_the_same_variant() {
    assert_eq!(UsbError::from_rusb(rusb::Error::InvalidParam), UsbError::InvalidParam);
    assert_eq!(UsbError::from_rusb(rusb::Error::NoDevice), UsbError::NoDevice);
    assert_eq!(UsbError::from_rusb(rusb::Error::NotFound), UsbError::NotFound);
    assert_eq!(UsbError::from_rusb(rusb::Error::Busy), UsbError::Busy);
    assert_eq!(UsbError::from_rusb(rusb::Error::Timeout), UsbError::Timeout);
    assert_eq!(UsbError::from_rusb(rusb::Error::Overflow), UsbError::Overflow);
    assert_eq!(UsbError::from_rusb(rusb::Error::Pipe), UsbError::Pipe);
    assert_eq!(UsbError::from_rusb(rusb::Error::Interrupted), UsbError::Interrupted);
    assert_eq!(UsbError::from_rusb(rusb::Error::NoMem), UsbError::NoMem);
}

fn scanned(info: UsbDeviceInfo, parent: Option<UsbDeviceInfo>, serial_number: Option<&str>) -> ScannedDevice {
    ScannedDevice {
        info,
        parent,
        serial_read: serial_number.map(|s| Ok(Ok(s.to_string()))),
        serial_number: serial_number.map(|s| s.to_string()),
    }
}

#[test]
fn children_of_hub_takes_devices_behind_the_hub_in_order() {
    let hub = info(0x0424, 0x2514);
    let other_hub = UsbDeviceInfo::from_ids(0x0424, 0x2514, 2, 1);
    let scan = vec![
        scanned(UsbDeviceInfo::from_ids(0x1D6B, 0x0002, 1, 1), None, None),
        scanned(UsbDeviceInfo::from_ids(0x093C, 0x0601, 1, 5), Some(hub.clone()), Some("MC0042")),
        scanned(UsbDeviceInfo::from_ids(0x093C, 0x0601, 2, 3), Some(other_hub.clone()), Some("MC0007")),
        scanned(UsbDeviceInfo::from_ids(0x1546, 0x01A8, 1, 6), Some(hub.clone()), None),
        scanned(UsbDeviceInfo::from_ids(0x08BB, 0x2912, 1, 7), Some(hub.clone().with_serial_number("X".to_string())), None),
        scanned(UsbDeviceInfo::from_ids(0x08BB, 0x2912, 1, 8), Some(hub.clone()), Some("ignored")),
    ];
    let children = children_of_hub(&hub, &scan);
    assert_eq!(children.len(), 3);
    assert!(children[0] == UsbDeviceInfo::from_ids(0x093C, 0x0601, 1, 5).with_serial_number("MC0042".to_string()));
    assert!(children[1] == UsbDeviceInfo::from_ids(0x1546, 0x01A8, 1, 6));
    assert!(children[2] == UsbDeviceInfo::from_ids(0x08BB, 0x2912, 1, 8));
    let others = children_of_hub(&other_hub, &scan);
    assert_eq!(others.len(), 1);
    assert!(others[0] == UsbDeviceInfo::from_ids(0x093C, 0x0601, 2, 3).with_serial_number("MC0007".to_string()));
    assert!(children_of_hub(&info(0x093C, 0x0601), &scan).is_empty());
    assert!(children_of_hub(&hub, &Vec::new()).is_empty());
}

#[test]
fn assemble_mics_pairs_hubs_with_their_children() {
    let hubs = vec![info(0x0424, 0x2514), UsbDeviceInfo::from_ids(0x0424, 0x2514, 2, 1)];
    let children = vec![
        vec![info(0x093C, 0x0601).with_serial_number("MC0042".to_string()), info(0x1546, 0x01A8)],
        vec![],
    ];
    let mics = assemble_mics(hubs, children);
    assert_eq!(mics.len(), 2);
    assert!(*mics[0].usb_hub() == info(0x0424, 0x2514));
    assert_eq!(mics[0].usb_children().len(), 2);
    assert!(mics[0].usb_children()[0] == info(0x093C, 0x0601).with_serial_number("MC0042".to_string()));
    assert!(mics[0].usb_children()[1] == info(0x1546, 0x01A8));
    assert!(*mics[1].usb_hub() == UsbDeviceInfo::from_ids(0x0424, 0x2514, 2, 1));
    assert!(mics[1].usb_children().is_empty());
    assert!(assemble_mics(Vec::new(), Vec::new()).is_empty());
}

#[test]
fn recorded_serial_of_each_outcome() {
    assert_eq!(recorded_serial(&Ok(Ok("MC0042".to_string()))), Ok("MC0042".to_string()));
    assert_eq!(recorded_serial(&Ok(Err(UsbError::Timeout))), Err(UsbError::Timeout));
    assert_eq!(
        recorded_serial(&Err(UsbError::Access)),
        Ok("Access denied (insufficient permissions)".to_string())
    );
    assert_eq!(recorded_serial(&Err(UsbError::Busy)), Ok(rusb::Error::Busy.to_string()));
}

#[test]
fn all_usb_error_messages_match_rusb() {
    let pairs = [
        (UsbError::Io, rusb::Error::Io),
        (UsbError::InvalidParam, rusb::Error::InvalidParam),
        (UsbError::Access, rusb::Error::Access),
        (UsbError::NoDevice, rusb::Error::NoDevice),
        (UsbError::NotFound, rusb::Error::NotFound),
        (UsbError::Busy, rusb::Error::Busy),
        (UsbError::Timeout, rusb::Error::Timeout),
        (UsbError::Overflow, rusb::Error::Overflow),
        (UsbError::Pipe, rusb::Error::Pipe),
        (UsbError::Interrupted, rusb::Error::Interrupted),
        (UsbError::NoMem, rusb::Error::NoMem),
        (UsbError::NotSupported, rusb::Error::NotSupported),
        (UsbError::BadDescriptor, rusb::Error::BadDescriptor),
        (UsbError::Other, rusb::Error::Other),
    ];
    for (ours, theirs) in pairs {
        assert_eq!(UsbError::from_rusb(theirs), ours);
        assert_eq!(ours.message(), theirs.to_string());
    }
}
