use netstatus::codes::{ActiveConnectionState, DeviceType, NetworkState, Severity};

#[test]
fn network_state_documented_codes() {
    assert_eq!(NetworkState::from_code(10), NetworkState::Asleep);
    assert_eq!(NetworkState::from_code(20), NetworkState::Disconnected);
    assert_eq!(NetworkState::from_code(30), NetworkState::Disconnecting);
    assert_eq!(NetworkState::from_code(40), NetworkState::Connecting);
    assert_eq!(NetworkState::from_code(50), NetworkState::ConnectedLocal);
    assert_eq!(NetworkState::from_code(60), NetworkState::ConnectedSite);
    assert_eq!(NetworkState::from_code(70), NetworkState::ConnectedGlobal);
}

#[test]
fn network_state_undocumented_codes_are_unknown() {
    assert_eq!(NetworkState::from_code(0), NetworkState::Unknown);
    assert_eq!(NetworkState::from_code(11), NetworkState::Unknown);
    assert_eq!(NetworkState::from_code(71), NetworkState::Unknown);
    assert_eq!(NetworkState::from_code(u32::MAX), NetworkState::Unknown);
}

#[test]
fn active_connection_state_codes() {
    assert_eq!(
        ActiveConnectionState::from_code(1),
        ActiveConnectionState::Activating
    );
    assert_eq!(
        ActiveConnectionState::from_code(2),
        ActiveConnectionState::Activated
    );
    assert_eq!(
        ActiveConnectionState::from_code(3),
        ActiveConnectionState::Deactivating
    );
    assert_eq!(
        ActiveConnectionState::from_code(4),
        ActiveConnectionState::Deactivated
    );
    assert_eq!(
        ActiveConnectionState::from_code(0),
        ActiveConnectionState::Unknown
    );
    assert_eq!(
        ActiveConnectionState::from_code(5),
        ActiveConnectionState::Unknown
    );
    assert_eq!(
        ActiveConnectionState::from_code(u32::MAX),
        ActiveConnectionState::Unknown
    );
}

#[test]
fn device_type_codes() {
    assert_eq!(DeviceType::from_code(1), DeviceType::Ethernet);
    assert_eq!(DeviceType::from_code(2), DeviceType::Wifi);
    assert_eq!(DeviceType::from_code(8), DeviceType::Modem);
    assert_eq!(DeviceType::from_code(13), DeviceType::Bridge);
    assert_eq!(DeviceType::from_code(16), DeviceType::Tun);
    assert_eq!(DeviceType::from_code(29), DeviceType::Wireguard);
    assert_eq!(DeviceType::from_code(0), DeviceType::Unknown);
    assert_eq!(DeviceType::from_code(3), DeviceType::Unknown);
    assert_eq!(DeviceType::from_code(u32::MAX), DeviceType::Unknown);
}

#[test]
fn activation_severity_mapping() {
    let good = Severity::Good;
    assert_eq!(ActiveConnectionState::Activated.to_state(good), Severity::Good);
    assert_eq!(
        ActiveConnectionState::Activated.to_state(Severity::Info),
        Severity::Info
    );
    assert_eq!(
        ActiveConnectionState::Activating.to_state(good),
        Severity::Warning
    );
    assert_eq!(
        ActiveConnectionState::Deactivating.to_state(good),
        Severity::Warning
    );
    assert_eq!(
        ActiveConnectionState::Deactivated.to_state(good),
        Severity::Critical
    );
    assert_eq!(
        ActiveConnectionState::Unknown.to_state(good),
        Severity::Critical
    );
}

#[test]
fn icon_names() {
    assert_eq!(
        DeviceType::Ethernet.to_icon_name(),
        Some("net_wired".to_string())
    );
    assert_eq!(
        DeviceType::Wifi.to_icon_name(),
        Some("net_wireless".to_string())
    );
    assert_eq!(
        DeviceType::Modem.to_icon_name(),
        Some("net_modem".to_string())
    );
    assert_eq!(
        DeviceType::Bridge.to_icon_name(),
        Some("net_bridge".to_string())
    );
    assert_eq!(DeviceType::Tun.to_icon_name(), Some("net_bridge".to_string()));
    assert_eq!(
        DeviceType::Wireguard.to_icon_name(),
        Some("net_vpn".to_string())
    );
    assert_eq!(DeviceType::Unknown.to_icon_name(), None);
}

#[test]
fn type_labels() {
    assert_eq!(DeviceType::Unknown.type_label(), "Unknown");
    assert_eq!(DeviceType::Ethernet.type_label(), "Ethernet");
    assert_eq!(DeviceType::Wireguard.type_label(), "Wireguard");
}
