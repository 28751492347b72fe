//! The network service's decisions: how NetworkManager's property changes
//! update the shared network state, what a connection attempt's outcome is,
//! and which settings a connection request carries.

use vstd::prelude::*;

use crate::network::commands::NetworkCommand;
use crate::network::events::{ConnectFailureReason, NetworkEvent};
use crate::network::state::{DeviceKind, NetworkInfo, SpecificNetworkInfo, spec_device_kind};
use crate::network::types::{
    ApSecurity, ConnectivityState, DeviceState, DeviceStateReason, DeviceType, State,
    device_state_from_code, device_state_reason_from_code,
};
use crate::text::{same_text, trim, trimmed};

verus! {

/// What reaches the network service's event loop.
#[derive(Clone, Debug)]
pub enum NetworkPropertyChange {
    State(State),
    Connectivity(ConnectivityState),
    /// The primary connection object path changed; triggers a full refetch.
    Primary(String),
    /// The active access point's signal strength changed.
    Strength(u8),
    /// The wireless device's active access point changed (e.g. roaming to a
    /// different BSSID on the same SSID); triggers a full refetch.
    ActiveApChanged,
    /// The wifi radio was turned on or off.
    WifiEnabled(bool),
    /// The system just woke from sleep; triggers a full refetch.
    Wake,
    /// Periodic full refetch, independent of any D-Bus event, so that a
    /// missed signal never leaves the state stale for good.
    Reconcile,
    /// NetworkManager (re)appeared on the bus under a new unique name; the
    /// property subscriptions must be re-established against it.
    NetworkManagerRestarted,
    /// A command issued by the UI.
    Command(NetworkCommand),
}

/// What the service does after applying a change.
#[derive(Clone, Debug)]
pub enum ServiceStep {
    /// Nothing more.
    Nothing,
    /// Refetch the full network state and resubscribe to the active access
    /// point.
    Refetch,
    /// Respawn the property watchers, then refetch.
    RestartWatchers,
    /// Carry out a command from the UI.
    RunCommand(NetworkCommand),
}

/// Whether the state is one of the connected states.
pub open spec fn is_connected_state(state: State) -> bool {
    state is ConnectedLocal || state is ConnectedSite || state is ConnectedGlobal
}

/// The network state after a change, for the changes that carry a value.
pub open spec fn changed_info(info: NetworkInfo, change: NetworkPropertyChange) -> NetworkInfo {
    match change {
        NetworkPropertyChange::State(s) => NetworkInfo { connection_state: s, ..info },
        NetworkPropertyChange::Connectivity(c) => NetworkInfo { connectivity: c, ..info },
        NetworkPropertyChange::Strength(strength) => match info.specific_info {
            Some(SpecificNetworkInfo::WiFi { wifi_ssid, .. }) => NetworkInfo {
                specific_info: Some(SpecificNetworkInfo::WiFi { wifi_ssid, wifi_strength: strength }),
                ..info
            },
            _ => info,
        },
        NetworkPropertyChange::WifiEnabled(e) => NetworkInfo { wifi_enabled: e, ..info },
        _ => info,
    }
}

/// Each property change sets exactly the field it reports and leaves the
/// rest of the state alone: a new state, connectivity or radio setting
/// replaces the old one whatever it was; a new signal strength replaces the
/// strength of a wifi connection (keeping its SSID) and is ignored
/// otherwise; every other change leaves the state as it was.
pub proof fn lemma_changes_set_their_field(info: NetworkInfo, change: NetworkPropertyChange)
    ensures
        ({
            let after = changed_info(info, change);
            &&& after.connection_state == match change {
                NetworkPropertyChange::State(s) => s,
                _ => info.connection_state,
            }
            &&& after.connectivity == match change {
                NetworkPropertyChange::Connectivity(c) => c,
                _ => info.connectivity,
            }
            &&& after.wifi_enabled == match change {
                NetworkPropertyChange::WifiEnabled(e) => e,
                _ => info.wifi_enabled,
            }
            &&& after.device_kind == info.device_kind
            &&& after.specific_info == match (change, info.specific_info) {
                (
                    NetworkPropertyChange::Strength(x),
                    Some(SpecificNetworkInfo::WiFi { wifi_ssid, .. }),
                ) => Some(SpecificNetworkInfo::WiFi { wifi_ssid, wifi_strength: x }),
                _ => info.specific_info,
            }
        }),
{
}

/// Applies a change to the shared network state and says what the service
/// does next.
///
/// A state change refetches as soon as a connection starts activating (so
/// the device kind, and with it the acquiring icon, is known at once), and
/// when a connected state arrives without device details. Primary
/// connection and access point changes, wakes and the periodic reconcile
/// refetch; a NetworkManager restart respawns the watchers first.
pub fn apply_property_change(info: &mut NetworkInfo, change: NetworkPropertyChange) -> (step:
    ServiceStep)
    ensures
        *final(info) == changed_info(*old(info), change),
        change matches NetworkPropertyChange::WifiEnabled(e) ==> final(info).wifi_enabled == e,
        match change {
            NetworkPropertyChange::State(s) => if s is Connecting || (is_connected_state(s) && old(
                info,
            ).specific_info is None) {
                step is Refetch
            } else {
                step is Nothing
            },
            NetworkPropertyChange::Primary(_) | NetworkPropertyChange::ActiveApChanged
            | NetworkPropertyChange::Wake | NetworkPropertyChange::Reconcile => step is Refetch,
            NetworkPropertyChange::NetworkManagerRestarted => step is RestartWatchers,
            NetworkPropertyChange::Command(c) => step == ServiceStep::RunCommand(c),
            _ => step is Nothing,
        },
{
    match change {
        NetworkPropertyChange::State(state) => {
            info.connection_state = state;
            let connected = match state {
                State::ConnectedLocal | State::ConnectedSite | State::ConnectedGlobal => true,
                _ => false,
            };
            if state == State::Connecting {
                ServiceStep::Refetch
            } else if connected && info.specific_info.is_none() {
                ServiceStep::Refetch
            } else {
                ServiceStep::Nothing
            }
        },
        NetworkPropertyChange::Connectivity(connectivity) => {
            info.connectivity = connectivity;
            ServiceStep::Nothing
        },
        NetworkPropertyChange::Primary(_) => ServiceStep::Refetch,
        NetworkPropertyChange::Strength(strength) => {
            let specific = info.specific_info.take();
            info.specific_info = match specific {
                Some(SpecificNetworkInfo::WiFi { wifi_ssid, wifi_strength }) => Some(
                    SpecificNetworkInfo::WiFi { wifi_ssid, wifi_strength: strength },
                ),
                other => other,
            };
            ServiceStep::Nothing
        },
        NetworkPropertyChange::ActiveApChanged => ServiceStep::Refetch,
        NetworkPropertyChange::WifiEnabled(enabled) => {
            info.wifi_enabled = enabled;
            ServiceStep::Nothing
        },
        NetworkPropertyChange::Wake => ServiceStep::Refetch,
        NetworkPropertyChange::Reconcile => ServiceStep::Refetch,
        NetworkPropertyChange::NetworkManagerRestarted => ServiceStep::RestartWatchers,
        NetworkPropertyChange::Command(cmd) => ServiceStep::RunCommand(cmd),
    }
}

/// The outcome a device state change reports for a connection attempt to
/// `ssid`: success once activated, failure once failed (a wrong password
/// when NetworkManager found no secrets), nothing yet for the intermediate
/// states.
pub open spec fn signal_outcome(ssid: String, new_state: u32, reason: u32) -> Option<NetworkEvent> {
    match device_state_from_code(new_state) {
        DeviceState::Activated => Some(NetworkEvent::ConnectionSucceeded { ssid }),
        DeviceState::Failed => Some(
            NetworkEvent::ConnectionFailed {
                ssid,
                reason: if device_state_reason_from_code(reason) == DeviceStateReason::NoSecrets {
                    ConnectFailureReason::WrongPassword
                } else {
                    ConnectFailureReason::Other
                },
            },
        ),
        _ => None,
    }
}

/// Reads one `StateChanged` signal of the device a connection attempt runs
/// on: the outcome it settles, if any.
pub fn connect_signal_outcome(ssid: &String, new_state: u32, reason: u32) -> (outcome: Option<
    NetworkEvent,
>)
    ensures
        outcome == signal_outcome(*ssid, new_state, reason),
{
    match DeviceState::from(new_state) {
        DeviceState::Activated => Some(NetworkEvent::ConnectionSucceeded { ssid: ssid.clone() }),
        DeviceState::Failed => {
            let reason = if DeviceStateReason::from(reason) == DeviceStateReason::NoSecrets {
                ConnectFailureReason::WrongPassword
            } else {
                ConnectFailureReason::Other
            };
            Some(NetworkEvent::ConnectionFailed { ssid: ssid.clone(), reason })
        },
        _ => None,
    }
}

/// The outcome reported when no definitive device state arrives in time:
/// a generic failure.
pub fn timeout_outcome(ssid: String) -> (event: NetworkEvent)
    ensures
        event == (NetworkEvent::ConnectionFailed { ssid, reason: ConnectFailureReason::Other }),
{
    NetworkEvent::ConnectionFailed { ssid, reason: ConnectFailureReason::Other }
}

/// A value in a NetworkManager settings dictionary.
#[derive(Debug, Clone, PartialEq, Eq)]
pub enum SettingValue {
    Text(String),
    Number(u32),
}

/// One entry of a settings dictionary.
#[derive(Debug, Clone)]
pub struct Setting {
    pub key: &'static str,
    pub value: SettingValue,
}

/// A setting with this key and this text.
pub open spec fn text_setting(setting: Setting, key: Seq<char>, text: Seq<char>) -> bool {
    &&& setting.key@ == key
    &&& setting.value matches SettingValue::Text(t) && t@ == text
}

/// Builds the `802-11-wireless-security` settings for a password-based
/// connection attempt. Returns no settings for schemes that don't take an
/// inline password (`Open`, `Enterprise`).
pub fn build_security_settings(security: ApSecurity, password: &str) -> (settings: Vec<Setting>)
    ensures
        match security {
            ApSecurity::Psk => settings@.len() == 2 && text_setting(settings@[0], "key-mgmt"@, "wpa-psk"@)
                && text_setting(settings@[1], "psk"@, password@),
            ApSecurity::Sae => settings@.len() == 2 && text_setting(settings@[0], "key-mgmt"@, "sae"@)
                && text_setting(settings@[1], "psk"@, password@),
            ApSecurity::Wep => settings@.len() == 2 && settings@[0].key@ == "wep-key-type"@
                && settings@[0].value == SettingValue::Number(1) && text_setting(
                settings@[1],
                "wep-key0"@,
                password@,
            ),
            ApSecurity::Open | ApSecurity::Enterprise => settings@.len() == 0,
        },
{
    let mut settings: Vec<Setting> = Vec::new();
    match security {
        ApSecurity::Psk => {
            settings.push(Setting { key: "key-mgmt", value: SettingValue::Text("wpa-psk".to_owned()) });
            settings.push(Setting { key: "psk", value: SettingValue::Text(password.to_owned()) });
        },
        ApSecurity::Sae => {
            settings.push(Setting { key: "key-mgmt", value: SettingValue::Text("sae".to_owned()) });
            settings.push(Setting { key: "psk", value: SettingValue::Text(password.to_owned()) });
        },
        ApSecurity::Wep => {
            // NM_WEP_KEY_TYPE_KEY; wep-key0 holds the passphrase/hex key
            settings.push(Setting { key: "wep-key-type", value: SettingValue::Number(1) });
            settings.push(Setting { key: "wep-key0", value: SettingValue::Text(password.to_owned()) });
        },
        ApSecurity::Open | ApSecurity::Enterprise => {},
    }
    settings
}

/// Whether an object path names an object: NetworkManager writes `/` for
/// "none".
pub open spec fn names_object(path: Seq<char>) -> bool {
    path != "/"@
}

/// Whether an object path names an object rather than "none" (`/`).
pub fn is_object_path_set(path: &str) -> (b: bool)
    ensures
        b == names_object(path@),
{
    !same_text(path, "/")
}

/// The connection whose device the network state describes: the primary
/// connection, or, while none is primary, the one being activated.
pub fn connection_to_resolve(primary: &str, activating: Option<&str>) -> (path: Option<String>)
    ensures
        names_object(primary@) ==> (path matches Some(p) && p@ == primary@),
        !names_object(primary@) ==> match activating {
            Some(a) => if names_object(a@) {
                (path matches Some(p) && p@ == a@)
            } else {
                path is None
            },
            None => path is None,
        },
{
    if is_object_path_set(primary) {
        Some(primary.to_owned())
    } else {
        match activating {
            Some(a) => {
                if is_object_path_set(a) {
                    Some(a.to_owned())
                } else {
                    None
                }
            },
            None => None,
        }
    }
}

/// What the service fetches about a connected device: wired needs nothing
/// more, wifi needs its active access point, other kinds are not shown.
#[derive(Debug, Clone, Copy, PartialEq, Eq, Structural)]
pub enum DeviceDetails {
    Wired,
    Wifi,
    NotShown,
}

/// The details to fetch for a device type.
pub fn details_for(device_type: DeviceType) -> (d: DeviceDetails)
    ensures
        d == match device_type {
            DeviceType::Ethernet => DeviceDetails::Wired,
            DeviceType::Wifi => DeviceDetails::Wifi,
            _ => DeviceDetails::NotShown,
        },
{
    match device_type {
        DeviceType::Ethernet => DeviceDetails::Wired,
        DeviceType::Wifi => DeviceDetails::Wifi,
        _ => DeviceDetails::NotShown,
    }
}

/// Whether device-specific details are fetched: only while connected, and
/// only when the connection's device is known.
pub fn wants_specific_info(state: State, device_resolved: bool) -> (b: bool)
    ensures
        b == (is_connected_state(state) && device_resolved),
{
    let connected = match state {
        State::ConnectedLocal | State::ConnectedSite | State::ConnectedGlobal => true,
        _ => false,
    };
    connected && device_resolved
}

/// The network state assembled from a fetch: the device kind comes from
/// the resolved device's type, and device-specific details are kept only
/// while connected with a resolved device.
pub fn assemble_network_info(
    connection_state: State,
    connectivity: ConnectivityState,
    wifi_enabled: bool,
    device_type: Option<DeviceType>,
    specific_info: Option<SpecificNetworkInfo>,
) -> (info: NetworkInfo)
    ensures
        info.connection_state == connection_state,
        info.connectivity == connectivity,
        info.wifi_enabled == wifi_enabled,
        info.device_kind == match device_type {
            Some(t) => spec_device_kind(t),
            None => None,
        },
        info.specific_info == if is_connected_state(connection_state) && device_type is Some {
            specific_info
        } else {
            None
        },
{
    let device_kind = match device_type {
        Some(t) => DeviceKind::from_device_type(t),
        None => None,
    };
    let specific_info = if wants_specific_info(connection_state, device_type.is_some()) {
        specific_info
    } else {
        None
    };
    NetworkInfo { connection_state, connectivity, specific_info, wifi_enabled, device_kind }
}

/// Whether a `NameOwnerChanged` signal means NetworkManager (re)appeared:
/// its well-known name got a new owner.
pub fn is_network_manager_restart(name: &str, has_new_owner: bool) -> (b: bool)
    ensures
        b == (name@ == "org.freedesktop.NetworkManager"@ && has_new_owner),
{
    same_text(name, "org.freedesktop.NetworkManager") && has_new_owner
}

} // verus!
