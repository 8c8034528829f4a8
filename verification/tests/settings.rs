use keypeek::settings::{
    layout_after_connect, protocol_config_for_connect, split_protocol_config, ConnectError,
    ProtocolType, Settings, SettingsApp, WindowPosition,
};

fn settings(protocol_type: ProtocolType, config: &str, layout: &str) -> Settings {
    Settings {
        protocol_type,
        protocol_config: config.to_string(),
        layout_name: layout.to_string(),
        size: 60,
        position: WindowPosition::BottomRight,
        timeout: 1500,
        margin: 12,
        confirmed: false,
        save_settings: true,
    }
}

#[test]
fn split_config_by_protocol() {
    assert_eq!(
        split_protocol_config(ProtocolType::Via, "/path/kb.json"),
        ("/path/kb.json".to_string(), String::new())
    );
    assert_eq!(
        split_protocol_config(ProtocolType::Vial, "4653:0001"),
        ("4653:0001".to_string(), String::new())
    );
    assert_eq!(
        split_protocol_config(ProtocolType::Zmk, "1D50:615E|/home/me/zmk-config"),
        ("1D50:615E".to_string(), "/home/me/zmk-config".to_string())
    );
    assert_eq!(
        split_protocol_config(ProtocolType::Zmk, "a|b|c"),
        ("a".to_string(), "b|c".to_string())
    );
    assert_eq!(
        split_protocol_config(ProtocolType::Zmk, "/only/dir"),
        (String::new(), "/only/dir".to_string())
    );
}

#[test]
fn connect_config_checks_fields() {
    assert_eq!(
        protocol_config_for_connect(None, ProtocolType::Via, "x.json", ""),
        Err(ConnectError::NoDeviceSelected)
    );
    assert_eq!(
        protocol_config_for_connect(Some(0), ProtocolType::Via, "  \t ", ""),
        Err(ConnectError::MissingJsonPath)
    );
    assert_eq!(
        protocol_config_for_connect(Some(0), ProtocolType::Via, " x.json\n", ""),
        Ok("x.json".to_string())
    );
    assert_eq!(
        protocol_config_for_connect(Some(0), ProtocolType::Vial, "  ", ""),
        Ok(String::new())
    );
    assert_eq!(
        protocol_config_for_connect(Some(1), ProtocolType::Zmk, "1D50:615E", "   "),
        Err(ConnectError::MissingZmkConfigDir)
    );
    assert_eq!(
        protocol_config_for_connect(Some(1), ProtocolType::Zmk, " 1D50:615E ", " /cfg "),
        Ok("1D50:615E|/cfg".to_string())
    );
}

#[test]
fn connect_error_messages() {
    assert_eq!(ConnectError::NoDeviceSelected.message(), "No device selected");
    assert_eq!(
        ConnectError::MissingJsonPath.message(),
        "Please provide a JSON config file path"
    );
    assert_eq!(
        ConnectError::MissingZmkConfigDir.message(),
        "Please provide a ZMK config directory path"
    );
}

#[test]
fn zmk_config_round_trips() {
    let config = protocol_config_for_connect(Some(0), ProtocolType::Zmk, "1D50:615E", "/cfg")
        .unwrap();
    assert_eq!(
        split_protocol_config(ProtocolType::Zmk, &config),
        ("1D50:615E".to_string(), "/cfg".to_string())
    );
}

#[test]
fn layout_chosen_after_connect() {
    let names = vec!["Default".to_string(), "Split".to_string()];
    assert_eq!(layout_after_connect(&names, &"Split".to_string()), "Split");
    assert_eq!(layout_after_connect(&names, &"Other".to_string()), "Default");
    assert_eq!(layout_after_connect(&Vec::new(), &"Other".to_string()), "Other");
}

#[test]
fn form_flow() {
    let mut form = SettingsApp::new(settings(ProtocolType::Zmk, "1D50:615E|/cfg", "Other"));
    assert_eq!(form.json_path, "1D50:615E");
    assert_eq!(form.zmk_config_path, "/cfg");
    assert!(!form.probes_vial(0, 1));

    assert_eq!(form.begin_connect(), None);
    assert_eq!(form.error, Some("No device selected".to_string()));

    form.select_device(0, 1, "1D50:615E".to_string(), false);
    assert_eq!(form.selected_device_index, Some(0));
    assert_eq!(form.error, None);
    assert_eq!(form.protocol_type, ProtocolType::Zmk);

    let config = form.begin_connect().unwrap();
    assert_eq!(config, "1D50:615E|/cfg");
    form.finish_connect(config, Err("timed out".to_string()));
    assert_eq!(form.error, Some("Failed to connect: timed out".to_string()));
    assert!(!form.connected);

    let config = form.begin_connect().unwrap();
    form.finish_connect(config, Ok(vec!["Default".to_string()]));
    assert!(form.connected);
    assert_eq!(form.error, None);
    assert_eq!(form.current.protocol_config, "1D50:615E|/cfg");
    assert_eq!(form.current.layout_name, "Default");

    form.refresh_devices();
    assert!(!form.connected);
    assert_eq!(form.selected_device_index, None);
    assert!(form.layout_names.is_empty());
}

#[test]
fn selecting_probes_vial_unless_zmk() {
    let mut form = SettingsApp::new(settings(ProtocolType::Via, "", ""));
    assert!(form.probes_vial(1, 2));
    assert!(!form.probes_vial(3, 2));
    assert!(!form.probes_vial(0, 0));
    form.select_device(3, 2, "4653:0001".to_string(), true);
    assert_eq!(form.selected_device_index, None);
    form.select_device(1, 2, "4653:0001".to_string(), true);
    assert_eq!(form.protocol_type, ProtocolType::Vial);
    assert_eq!(form.json_path, "4653:0001");
    form.select_device(0, 2, "FEED:0000".to_string(), false);
    assert_eq!(form.protocol_type, ProtocolType::Via);
    assert_eq!(form.json_path, "");
}

#[test]
fn form_controls_follow_state() {
    let mut form = SettingsApp::new(settings(ProtocolType::Via, "kb.json", ""));
    assert_eq!(form.config_field_label(), "JSON Config");
    assert!(form.json_field_editable());
    assert!(!form.can_connect());
    assert_eq!(form.connect_button_text(), "Connect");
    assert!(!form.shows_zmk_config_field());
    form.select_device(0, 1, "4653:0001".to_string(), false);
    assert!(form.can_connect());
    let config = form.begin_connect();
    assert_eq!(config, None);
    form.json_path = "kb.json".to_string();
    let config = form.begin_connect().unwrap();
    form.finish_connect(config, Ok(vec!["Default".to_string()]));
    assert!(form.can_start());
    let started = form.start_settings().expect("settings to start with");
    assert!(started.confirmed);
    assert_eq!(started.protocol_type, ProtocolType::Via);
    assert_eq!(started.protocol_config, "kb.json");
    assert_eq!(started.layout_name, "Default");
    assert_eq!(started.size, 60);
    assert_eq!(started.position, WindowPosition::BottomRight);
    assert_eq!(started.timeout, 1500);
    assert_eq!(started.margin, 12);
    assert!(started.save_settings);
    assert!(!form.current.confirmed);
    assert!(!form.can_connect());
    assert!(!form.json_field_editable());
    assert_eq!(form.connect_button_text(), "Connected");
    form.choose_protocol(ProtocolType::Zmk);
    assert!(!form.connected);
    assert!(form.layout_names.is_empty());
    assert!(!form.can_start());
    assert!(form.start_settings().is_none());
    assert_eq!(form.config_field_label(), "Device ID");
    assert!(form.shows_zmk_config_field());
    form.error = Some("x".to_string());
    form.dismiss_error();
    assert_eq!(form.error, None);
}
