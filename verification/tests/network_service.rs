use cadenza_shell::network::commands::NetworkCommand;
use cadenza_shell::network::events::{ConnectFailureReason, NetworkEvent};
use cadenza_shell::network::service::{
    DeviceDetails, NetworkPropertyChange, ServiceStep, SettingValue, apply_property_change,
    assemble_network_info, build_security_settings, connect_signal_outcome,
    connection_to_resolve, details_for, is_network_manager_restart, is_object_path_set,
    timeout_outcome,
};
use cadenza_shell::network::state::{DeviceKind, NetworkInfo, SpecificNetworkInfo};
use cadenza_shell::network::types::{ApSecurity, ConnectivityState, DeviceType, State};

#[test]
fn connecting_and_bare_connected_states_refetch() {
    let mut info = NetworkInfo::default();
    assert!(matches!(apply_property_change(&mut info, NetworkPropertyChange::State(State::Connecting)), ServiceStep::Refetch));
    assert_eq!(info.connection_state, State::Connecting);
    assert!(matches!(apply_property_change(&mut info, NetworkPropertyChange::State(State::ConnectedGlobal)), ServiceStep::Refetch));
    info.specific_info = Some(SpecificNetworkInfo::Wired);
    assert!(matches!(apply_property_change(&mut info, NetworkPropertyChange::State(State::ConnectedSite)), ServiceStep::Nothing));
    assert!(matches!(apply_property_change(&mut info, NetworkPropertyChange::State(State::Disconnected)), ServiceStep::Nothing));
}

#[test]
fn strength_changes_only_touch_wifi_details() {
    let mut info = NetworkInfo::default();
    info.specific_info = Some(SpecificNetworkInfo::WiFi { wifi_ssid: "Home".to_string(), wifi_strength: 10 });
    apply_property_change(&mut info, NetworkPropertyChange::Strength(77));
    assert!(matches!(info.specific_info, Some(SpecificNetworkInfo::WiFi { wifi_strength: 77, .. })));
    info.specific_info = Some(SpecificNetworkInfo::Wired);
    apply_property_change(&mut info, NetworkPropertyChange::Strength(5));
    assert!(matches!(info.specific_info, Some(SpecificNetworkInfo::Wired)));
}

#[test]
fn other_changes_pick_the_right_step() {
    let mut info = NetworkInfo::default();
    assert!(matches!(apply_property_change(&mut info, NetworkPropertyChange::WifiEnabled(false)), ServiceStep::Nothing));
    assert!(!info.wifi_enabled);
    assert!(matches!(apply_property_change(&mut info, NetworkPropertyChange::Connectivity(ConnectivityState::Portal)), ServiceStep::Nothing));
    assert_eq!(info.connectivity, ConnectivityState::Portal);
    assert!(matches!(apply_property_change(&mut info, NetworkPropertyChange::Reconcile), ServiceStep::Refetch));
    assert!(matches!(apply_property_change(&mut info, NetworkPropertyChange::Primary("/a".to_string())), ServiceStep::Refetch));
    assert!(matches!(apply_property_change(&mut info, NetworkPropertyChange::NetworkManagerRestarted), ServiceStep::RestartWatchers));
    assert!(matches!(apply_property_change(&mut info, NetworkPropertyChange::Command(NetworkCommand::Scan)), ServiceStep::RunCommand(NetworkCommand::Scan)));
}

#[test]
fn connect_outcomes_follow_the_device_state() {
    let ssid = "Home".to_string();
    assert!(matches!(connect_signal_outcome(&ssid, 100, 0), Some(NetworkEvent::ConnectionSucceeded { .. })));
    assert!(matches!(connect_signal_outcome(&ssid, 120, 7), Some(NetworkEvent::ConnectionFailed { reason: ConnectFailureReason::WrongPassword, .. })));
    assert!(matches!(connect_signal_outcome(&ssid, 120, 4), Some(NetworkEvent::ConnectionFailed { reason: ConnectFailureReason::Other, .. })));
    assert!(connect_signal_outcome(&ssid, 50, 0).is_none());
    assert!(matches!(timeout_outcome(ssid), NetworkEvent::ConnectionFailed { reason: ConnectFailureReason::Other, .. }));
}

#[test]
fn security_settings_match_the_scheme() {
    let psk = build_security_settings(ApSecurity::Psk, "pw");
    assert_eq!(psk.len(), 2);
    assert_eq!(psk[0].key, "key-mgmt");
    assert_eq!(psk[0].value, SettingValue::Text("wpa-psk".to_string()));
    assert_eq!(psk[1].key, "psk");
    assert_eq!(psk[1].value, SettingValue::Text("pw".to_string()));
    let sae = build_security_settings(ApSecurity::Sae, "pw");
    assert_eq!(sae[0].value, SettingValue::Text("sae".to_string()));
    let wep = build_security_settings(ApSecurity::Wep, "k");
    assert_eq!(wep[0].key, "wep-key-type");
    assert_eq!(wep[0].value, SettingValue::Number(1));
    assert_eq!(wep[1].key, "wep-key0");
    assert!(build_security_settings(ApSecurity::Open, "x").is_empty());
    assert!(build_security_settings(ApSecurity::Enterprise, "x").is_empty());
}

#[test]
fn the_primary_connection_wins_over_the_activating_one() {
    assert!(!is_object_path_set("/"));
    assert!(is_object_path_set("/org/freedesktop/NetworkManager/ActiveConnection/1"));
    assert_eq!(connection_to_resolve("/a/1", Some("/a/2")), Some("/a/1".to_string()));
    assert_eq!(connection_to_resolve("/", Some("/a/2")), Some("/a/2".to_string()));
    assert_eq!(connection_to_resolve("/", Some("/")), None);
    assert_eq!(connection_to_resolve("/", None), None);
}

#[test]
fn device_details_are_kept_only_while_connected() {
    let info = assemble_network_info(State::ConnectedGlobal, ConnectivityState::Full, true, Some(DeviceType::Ethernet), Some(SpecificNetworkInfo::Wired));
    assert_eq!(info.device_kind, Some(DeviceKind::Wired));
    assert!(info.specific_info.is_some());
    let info = assemble_network_info(State::Connecting, ConnectivityState::NotConnected, true, Some(DeviceType::Wifi), Some(SpecificNetworkInfo::Wired));
    assert_eq!(info.device_kind, Some(DeviceKind::WiFi));
    assert!(info.specific_info.is_none());
    assert_eq!(details_for(DeviceType::Wifi), DeviceDetails::Wifi);
    assert_eq!(details_for(DeviceType::Modem), DeviceDetails::NotShown);
}

#[test]
fn only_a_new_owner_of_the_networkmanager_name_is_a_restart() {
    assert!(is_network_manager_restart("org.freedesktop.NetworkManager", true));
    assert!(!is_network_manager_restart("org.freedesktop.NetworkManager", false));
    assert!(!is_network_manager_restart("org.freedesktop.Notifications", true));
}
