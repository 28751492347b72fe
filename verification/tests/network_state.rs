use cadenza_shell::icons::{
    NETWORK_WIFI_CONNECTING, NETWORK_WIFI_DISABLED, NETWORK_WIFI_DISCONNECTED,
    NETWORK_WIFI_NO_ROUTE, NETWORK_WIRED_CONNECTED, NETWORK_WIRED_CONNECTING,
    NETWORK_WIRED_NO_ROUTE, RADIOWAVES_1, RADIOWAVES_2, RADIOWAVES_3, RADIOWAVES_4,
};
use cadenza_shell::network::state::{
    AccessPointSummary, DeviceKind, NetworkInfo, SpecificNetworkInfo, get_icon,
    get_strength_icon,
};
use cadenza_shell::network::types::{
    ApSecurity, ConnectivityState, DeviceState, DeviceStateReason, DeviceType, State,
};

fn wifi_info(connectivity: ConnectivityState, strength: u8) -> NetworkInfo {
    NetworkInfo {
        connection_state: State::ConnectedGlobal,
        connectivity,
        specific_info: Some(SpecificNetworkInfo::WiFi {
            wifi_ssid: "test".to_string(),
            wifi_strength: strength,
        }),
        wifi_enabled: true,
        device_kind: Some(DeviceKind::WiFi),
    }
}

fn wired_info(connectivity: ConnectivityState) -> NetworkInfo {
    NetworkInfo {
        connection_state: State::ConnectedGlobal,
        connectivity,
        specific_info: Some(SpecificNetworkInfo::Wired),
        wifi_enabled: true,
        device_kind: Some(DeviceKind::Wired),
    }
}

#[test]
fn full_strength_uses_the_strongest_icon() {
    assert_eq!(get_strength_icon(100), RADIOWAVES_1);
}

#[test]
fn no_strength_uses_the_weakest_icon() {
    assert_eq!(get_strength_icon(0), RADIOWAVES_4);
}

#[test]
fn disconnected_with_radio_on_shows_the_offline_icon() {
    let info = NetworkInfo {
        connection_state: State::Disconnected,
        wifi_enabled: true,
        ..Default::default()
    };
    assert_eq!(get_icon(&info), NETWORK_WIFI_DISCONNECTED);
}

#[test]
fn disconnected_with_radio_off_shows_the_disabled_icon() {
    let info = NetworkInfo {
        connection_state: State::Disconnected,
        wifi_enabled: false,
        ..Default::default()
    };
    assert_eq!(get_icon(&info), NETWORK_WIFI_DISABLED);
}

#[test]
fn wifi_with_full_route_shows_the_strength_icon() {
    assert_eq!(
        get_icon(&wifi_info(ConnectivityState::Full, 100)),
        get_strength_icon(100)
    );
}

#[test]
fn wifi_with_unknown_connectivity_still_shows_the_strength_icon() {
    assert_eq!(
        get_icon(&wifi_info(ConnectivityState::Unknown, 100)),
        get_strength_icon(100)
    );
}

#[test]
fn wifi_without_a_full_route_shows_the_no_route_icon() {
    for connectivity in [
        ConnectivityState::NotConnected,
        ConnectivityState::Portal,
        ConnectivityState::Limited,
    ] {
        assert_eq!(get_icon(&wifi_info(connectivity, 100)), NETWORK_WIFI_NO_ROUTE);
    }
}

#[test]
fn wired_with_full_route_shows_the_connected_icon() {
    assert_eq!(
        get_icon(&wired_info(ConnectivityState::Full)),
        NETWORK_WIRED_CONNECTED
    );
}

#[test]
fn wired_without_a_full_route_shows_the_no_route_icon() {
    assert_eq!(
        get_icon(&wired_info(ConnectivityState::Limited)),
        NETWORK_WIRED_NO_ROUTE
    );
}

#[test]
fn connecting_over_wifi_shows_the_wifi_acquiring_icon() {
    let info = NetworkInfo {
        connection_state: State::Connecting,
        device_kind: Some(DeviceKind::WiFi),
        ..Default::default()
    };
    assert_eq!(get_icon(&info), NETWORK_WIFI_CONNECTING);
}

#[test]
fn connecting_over_wired_shows_the_wired_acquiring_icon() {
    let info = NetworkInfo {
        connection_state: State::Connecting,
        device_kind: Some(DeviceKind::Wired),
        ..Default::default()
    };
    assert_eq!(get_icon(&info), NETWORK_WIRED_CONNECTING);
}

#[test]
fn connecting_with_unknown_device_kind_falls_back_to_wifi_acquiring_icon() {
    let info = NetworkInfo {
        connection_state: State::Connecting,
        device_kind: None,
        ..Default::default()
    };
    assert_eq!(get_icon(&info), NETWORK_WIFI_CONNECTING);
}

#[test]
fn strength_icons_step_through_the_quarters() {
    assert_eq!(get_strength_icon(50), RADIOWAVES_2);
    assert_eq!(get_strength_icon(33), RADIOWAVES_3);
    assert_eq!(get_strength_icon(17), RADIOWAVES_3);
    assert_eq!(get_strength_icon(16), RADIOWAVES_4);
    assert_eq!(get_strength_icon(84), RADIOWAVES_1);
    assert_eq!(get_strength_icon(255), RADIOWAVES_1);
}

#[test]
fn default_network_info_is_unknown_with_the_radio_on() {
    let info = NetworkInfo::default();
    assert_eq!(info.connection_state, State::Unknown);
    assert_eq!(info.connectivity, ConnectivityState::Unknown);
    assert!(info.specific_info.is_none());
    assert!(info.wifi_enabled);
    assert!(info.device_kind.is_none());
}

#[test]
fn wifi_ssid_is_only_known_on_wifi() {
    assert_eq!(
        wifi_info(ConnectivityState::Full, 50).wifi_ssid(),
        Some("test".to_string())
    );
    assert_eq!(wired_info(ConnectivityState::Full).wifi_ssid(), None);
}

#[test]
fn only_full_or_unknown_connectivity_is_a_full_route() {
    assert!(wifi_info(ConnectivityState::Full, 1).has_full_route());
    assert!(wifi_info(ConnectivityState::Unknown, 1).has_full_route());
    assert!(!wifi_info(ConnectivityState::Portal, 1).has_full_route());
    assert!(!wifi_info(ConnectivityState::NotConnected, 1).has_full_route());
}

#[test]
fn device_kinds_come_from_device_types() {
    assert_eq!(DeviceKind::from_device_type(DeviceType::Wifi), Some(DeviceKind::WiFi));
    assert_eq!(DeviceKind::from_device_type(DeviceType::Ethernet), Some(DeviceKind::Wired));
    assert_eq!(DeviceKind::from_device_type(DeviceType::Bt), None);
}

#[test]
fn numeric_codes_map_to_networkmanager_enums() {
    assert_eq!(State::from(70u32), State::ConnectedGlobal);
    assert_eq!(State::from(40u32), State::Connecting);
    assert_eq!(State::from(12345u32), State::Unknown);
    assert_eq!(DeviceType::from(2u32), DeviceType::Wifi);
    assert_eq!(DeviceType::from(1u32), DeviceType::Ethernet);
    assert_eq!(DeviceState::from(100u32), DeviceState::Activated);
    assert_eq!(DeviceState::from(120u32), DeviceState::Failed);
    assert_eq!(DeviceStateReason::from(7u32), DeviceStateReason::NoSecrets);
    assert_eq!(DeviceStateReason::from(0u32), DeviceStateReason::NoReason);
    assert_eq!(DeviceStateReason::from(1u32), DeviceStateReason::Unknown);
    assert_eq!(DeviceStateReason::from(61u32), DeviceStateReason::ParentChanged);
    assert_eq!(DeviceStateReason::from(62u32), DeviceStateReason::ParentManagedChanged);
    assert_eq!(DeviceStateReason::from(77u32), DeviceStateReason::UnmanagedUserUdev);
    assert_eq!(DeviceStateReason::from(78u32), DeviceStateReason::Unknown);
    assert_eq!(ConnectivityState::from(4u32), ConnectivityState::Full);
    assert_eq!(ConnectivityState::from(1u32), ConnectivityState::NotConnected);
}

#[test]
fn security_follows_the_strongest_key_management_flag() {
    assert_eq!(ApSecurity::from_flags(0, 0, 0), ApSecurity::Open);
    assert_eq!(ApSecurity::from_flags(0x1, 0, 0), ApSecurity::Wep);
    assert_eq!(ApSecurity::from_flags(0x1, 0x100, 0), ApSecurity::Psk);
    assert_eq!(ApSecurity::from_flags(0, 0x100, 0x400), ApSecurity::Sae);
    assert_eq!(ApSecurity::from_flags(0, 0x200, 0x400), ApSecurity::Enterprise);
}

#[test]
fn only_unsaved_secured_networks_need_a_password() {
    let mut summary = AccessPointSummary {
        ssid: "Home".to_string(),
        strength: 70,
        security: ApSecurity::Psk,
        is_active: false,
        saved_connection: None,
    };
    assert!(summary.needs_password());
    summary.saved_connection = Some("/org/freedesktop/NetworkManager/Settings/3".to_string());
    assert!(summary.is_saved());
    assert!(!summary.needs_password());
    summary.saved_connection = None;
    summary.security = ApSecurity::Enterprise;
    assert!(!summary.needs_password());
}
