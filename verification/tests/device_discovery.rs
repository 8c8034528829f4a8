use keypeek::device_discovery::{
    discover_devices, is_vial_device, DeviceKind, DiscoveredDevice, ScannedKeyboard,
    SerialPortInfo,
};

#[test]
fn display_name_uses_kind_label() {
    let board = DiscoveredDevice {
        base_name: "Board".to_string(),
        vid: 0x1234,
        pid: 0xABCD,
        serial_port: None,
        kind: DeviceKind::Studio,
    };
    assert_eq!(board.display_name(), "Board (Studio, 1234:ABCD)");
}

#[test]
fn kind_labels_match_expected_ui_text() {
    assert_eq!(DeviceKind::Studio.label(), "Studio");
    assert_eq!(DeviceKind::Vial.label(), "Vial");
    assert_eq!(DeviceKind::Qmk.label(), "QMK");
}

#[test]
fn display_name_for_other_kinds() {
    let vial_board = DiscoveredDevice {
        base_name: "Board".to_string(),
        vid: 0,
        pid: 0,
        serial_port: None,
        kind: DeviceKind::Vial,
    };
    let qmk_board = DiscoveredDevice {
        base_name: "Board".to_string(),
        vid: 0x0A0B,
        pid: 0x0C0D,
        serial_port: None,
        kind: DeviceKind::Qmk,
    };
    assert_eq!(vial_board.display_name(), "Board (Vial, 0000:0000)");
    assert_eq!(qmk_board.display_name(), "Board (QMK, 0A0B:0C0D)");
}

#[test]
fn display_name_pads_and_uppercases_ids() {
    let board = DiscoveredDevice {
        base_name: "Kb".to_string(),
        vid: 0xfeed,
        pid: 0x00a1,
        serial_port: Some("COM3".to_string()),
        kind: DeviceKind::Qmk,
    };
    assert_eq!(board.display_name(), "Kb (QMK, FEED:00A1)");
}

#[test]
fn vial_serial_prefix_ignores_case() {
    let with_serial = |s: Option<&str>| keyboard(1, 2, None, s);
    assert!(is_vial_device(&with_serial(Some("vial:f64c2b3c"))));
    assert!(is_vial_device(&with_serial(Some("VIAL:1234"))));
    assert!(is_vial_device(&with_serial(Some("ViAl:"))));
    assert!(!is_vial_device(&with_serial(Some("vial"))));
    assert!(!is_vial_device(&with_serial(Some("xvial:1"))));
    assert!(!is_vial_device(&with_serial(Some(""))));
    assert!(!is_vial_device(&with_serial(Some("\u{00E9}vial:"))));
    assert!(!is_vial_device(&with_serial(None)));
}

fn keyboard(vid: u16, pid: u16, product: Option<&str>, serial: Option<&str>) -> ScannedKeyboard {
    ScannedKeyboard {
        vendor_id: vid,
        product_id: pid,
        product: product.map(|s| s.to_string()),
        serial_number: serial.map(|s| s.to_string()),
    }
}

fn port(name: &str, vid: u16, pid: u16, product: Option<&str>) -> SerialPortInfo {
    SerialPortInfo {
        port_name: name.to_string(),
        vid,
        pid,
        product: product.map(|s| s.to_string()),
    }
}

#[test]
fn discovery_names_keyboards_and_kinds() {
    let keyboards = vec![
        keyboard(0x4653, 0x0001, Some("Corne"), Some("vial:f64c2b3c")),
        keyboard(0x1234, 0x00ab, None, None),
    ];
    let devices = discover_devices(&keyboards, &Vec::new());
    assert_eq!(devices.len(), 2);
    assert_eq!(devices[0].base_name, "Corne");
    assert_eq!(devices[0].kind, DeviceKind::Vial);
    assert_eq!(devices[0].serial_port, None);
    assert_eq!(devices[1].base_name, "1234:00AB");
    assert_eq!(devices[1].kind, DeviceKind::Qmk);
}

#[test]
fn discovery_attaches_port_to_matching_keyboard() {
    let keyboards = vec![
        keyboard(0x1d50, 0x615e, Some("Glove80"), None),
        keyboard(0x1d50, 0x615e, Some("Second"), None),
    ];
    let ports = vec![port("/dev/ttyACM0", 0x1d50, 0x615e, Some("Glove80"))];
    let devices = discover_devices(&keyboards, &ports);
    assert_eq!(devices.len(), 2);
    assert_eq!(devices[0].kind, DeviceKind::Studio);
    assert_eq!(devices[0].serial_port, Some("/dev/ttyACM0".to_string()));
    assert_eq!(devices[0].base_name, "Glove80");
    assert_eq!(devices[1].kind, DeviceKind::Qmk);
    assert_eq!(devices[1].serial_port, None);
}

#[test]
fn discovery_adds_unmatched_ports() {
    let ports = vec![
        port("COM4", 0x1d50, 0x615e, None),
        port("COM5", 0x0001, 0x0002, Some("Nice")),
    ];
    let devices = discover_devices(&Vec::new(), &ports);
    assert_eq!(devices.len(), 2);
    assert_eq!(devices[0].base_name, "1D50:615E [COM4]");
    assert_eq!(devices[0].serial_port, Some("COM4".to_string()));
    assert_eq!(devices[0].kind, DeviceKind::Studio);
    assert_eq!(devices[1].base_name, "Nice [COM5]");
    assert_eq!(devices[1].display_name(), "Nice [COM5] (Studio, 0001:0002)");
}

#[test]
fn discovery_later_port_with_same_ids_replaces_port() {
    let ports = vec![
        port("COM4", 0x1d50, 0x615e, None),
        port("COM6", 0x1d50, 0x615e, None),
    ];
    let devices = discover_devices(&Vec::new(), &ports);
    assert_eq!(devices.len(), 1);
    assert_eq!(devices[0].base_name, "1D50:615E [COM4]");
    assert_eq!(devices[0].serial_port, Some("COM6".to_string()));
}

#[test]
fn discovered_device_clones() {
    let d = DiscoveredDevice {
        base_name: "Board".to_string(),
        vid: 1,
        pid: 2,
        serial_port: Some("COM1".to_string()),
        kind: DeviceKind::Studio,
    };
    let c = d.clone();
    assert_eq!(c.base_name, "Board");
    assert_eq!(c.serial_port, Some("COM1".to_string()));
    assert_eq!(c.kind, DeviceKind::Studio);
    assert_eq!(c.display_name(), d.display_name());
}
