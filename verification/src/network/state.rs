//! The network state shown by the bar and the network menu.

use vstd::prelude::*;

use crate::icons::{
    NETWORK_WIFI_CONNECTING, NETWORK_WIFI_DISABLED, NETWORK_WIFI_DISCONNECTED,
    NETWORK_WIFI_ICON_NAMES, NETWORK_WIFI_NO_ROUTE, NETWORK_WIRED_CONNECTED,
    NETWORK_WIRED_CONNECTING, NETWORK_WIRED_NO_ROUTE, RADIOWAVES_1, RADIOWAVES_2, RADIOWAVES_3,
    RADIOWAVES_4, percentage_icon_index, percentage_to_icon_from_list,
};
use crate::network::types::{ApSecurity, ConnectivityState, DeviceType, State};

verus! {

/// Wifi scan results and saved connection info for the network menu.
#[derive(Debug, Clone)]
pub struct WifiScanState {
    /// Access points, deduplicated by SSID and sorted with the active
    /// connection first, then by descending signal strength.
    pub access_points: Vec<AccessPointSummary>,
    /// Whether a scan (`RequestScan`) is currently in flight.
    pub scanning: bool,
    /// `WirelessDevice.LastScan`, in CLOCK_BOOTTIME milliseconds; `-1` if a
    /// scan has never completed.
    pub last_scan_ms: i64,
}

impl Default for WifiScanState {
    fn default() -> (s: Self)
        ensures
            s.access_points@.len() == 0,
            !s.scanning,
            s.last_scan_ms == 0,
    {
        WifiScanState { access_points: Vec::new(), scanning: false, last_scan_ms: 0 }
    }
}

/// A single wifi network as shown in the menu: one row per SSID, even if
/// multiple access points (BSSIDs) are broadcasting it.
#[derive(Debug, Clone)]
pub struct AccessPointSummary {
    pub ssid: String,
    /// Signal strength of the strongest access point broadcasting this SSID,
    /// as a percentage.
    pub strength: u8,
    pub security: ApSecurity,
    /// Whether this is the network the active connection is on.
    pub is_active: bool,
    /// The object path of a saved connection profile matching this SSID, if
    /// one exists. `Some` means connecting won't need a password (NM already
    /// has the secrets); it's also required to "forget" the network.
    pub saved_connection: Option<String>,
}

impl AccessPointSummary {
    pub fn is_saved(&self) -> (b: bool)
        ensures
            b == self.saved_connection is Some,
    {
        self.saved_connection.is_some()
    }

    /// Whether connecting to this network needs a password from the user
    /// (i.e. it's secured and NM doesn't already have saved secrets for it).
    pub fn needs_password(&self) -> (b: bool)
        ensures
            b == ((self.security is Wep || self.security is Psk || self.security is Sae)
                && self.saved_connection is None),
    {
        self.security.requires_password() && !self.is_saved()
    }
}

/// The kind of device backing the active or in-progress connection.
#[derive(Debug, Clone, Copy, PartialEq, Eq, Structural)]
pub enum DeviceKind {
    Wired,
    WiFi,
}

/// The kind of a device type the shell shows: ethernet is wired, wifi is
/// wifi, anything else has no kind.
pub open spec fn spec_device_kind(device_type: DeviceType) -> Option<DeviceKind> {
    match device_type {
        DeviceType::Ethernet => Some(DeviceKind::Wired),
        DeviceType::Wifi => Some(DeviceKind::WiFi),
        _ => None,
    }
}

impl DeviceKind {
    /// Maps a NetworkManager device type to a `DeviceKind`, or `None` for
    /// device types this shell doesn't render distinctly (e.g. mobile
    /// broadband).
    pub fn from_device_type(device_type: DeviceType) -> (k: Option<Self>)
        ensures
            k == spec_device_kind(device_type),
    {
        match device_type {
            DeviceType::Ethernet => Some(Self::Wired),
            DeviceType::Wifi => Some(Self::WiFi),
            _ => None,
        }
    }
}

#[derive(Debug, Clone)]
pub struct NetworkInfo {
    pub connection_state: State,
    pub connectivity: ConnectivityState,
    pub specific_info: Option<SpecificNetworkInfo>,
    /// Whether NetworkManager's wifi radio is enabled (the
    /// `WirelessEnabled` property).
    pub wifi_enabled: bool,
    /// The device kind backing the active or in-progress connection.
    pub device_kind: Option<DeviceKind>,
}

impl Default for NetworkInfo {
    fn default() -> (info: Self)
        ensures
            info.connection_state == State::Unknown,
            info.connectivity == ConnectivityState::Unknown,
            info.specific_info is None,
            info.wifi_enabled,
            info.device_kind is None,
    {
        NetworkInfo {
            connection_state: State::Unknown,
            connectivity: ConnectivityState::Unknown,
            specific_info: None,
            wifi_enabled: true,
            device_kind: None,
        }
    }
}

/// A connectivity check with a full route to the internet; `Unknown` counts
/// as fine, since plenty of systems disable the check.
pub open spec fn spec_has_full_route(connectivity: ConnectivityState) -> bool {
    connectivity is Full || connectivity is Unknown
}

impl NetworkInfo {
    pub fn wifi_ssid(&self) -> (ssid: Option<String>)
        ensures
            match self.specific_info {
                Some(SpecificNetworkInfo::WiFi { wifi_ssid, .. }) => ssid == Some(wifi_ssid),
                _ => ssid is None,
            },
    {
        if let Some(SpecificNetworkInfo::WiFi { ref wifi_ssid, .. }) = self.specific_info {
            Some(wifi_ssid.clone())
        } else {
            None
        }
    }

    /// Whether the connectivity check indicates a full route to the
    /// internet.
    pub fn has_full_route(&self) -> (b: bool)
        ensures
            b == spec_has_full_route(self.connectivity),
            b <==> (self.connectivity is Full || self.connectivity is Unknown),
    {
        match self.connectivity {
            ConnectivityState::Full | ConnectivityState::Unknown => true,
            _ => false,
        }
    }
}

#[derive(Clone, Debug)]
pub enum SpecificNetworkInfo {
    WiFi { wifi_ssid: String, wifi_strength: u8 },
    Wired,
}

/// The wifi signal icon for a strength percentage.
pub open spec fn spec_strength_icon(strength: u8) -> &'static str {
    let index = percentage_icon_index(strength as int, 4);
    if index == 0 {
        RADIOWAVES_4
    } else if index == 1 {
        RADIOWAVES_3
    } else if index == 2 {
        RADIOWAVES_2
    } else {
        RADIOWAVES_1
    }
}

/// The icon for a networking state: an "acquiring" icon while connecting,
/// the radio's on/off icon while not connected, and otherwise the icon of
/// the connected device kind, or its no-route variant when the connectivity
/// check fails.
pub open spec fn spec_network_icon(info: NetworkInfo) -> &'static str {
    if info.connection_state is Connecting {
        if info.device_kind == Some(DeviceKind::Wired) {
            NETWORK_WIRED_CONNECTING
        } else {
            NETWORK_WIFI_CONNECTING
        }
    } else if info.connection_state is Disconnected || info.connection_state is Disconnecting
        || info.connection_state is Asleep || info.connection_state is Unknown {
        if info.wifi_enabled {
            NETWORK_WIFI_DISCONNECTED
        } else {
            NETWORK_WIFI_DISABLED
        }
    } else {
        match info.specific_info {
            Some(SpecificNetworkInfo::WiFi { wifi_strength, .. }) => if spec_has_full_route(
                info.connectivity,
            ) {
                spec_strength_icon(wifi_strength)
            } else {
                NETWORK_WIFI_NO_ROUTE
            },
            Some(SpecificNetworkInfo::Wired) => if spec_has_full_route(info.connectivity) {
                NETWORK_WIRED_CONNECTED
            } else {
                NETWORK_WIRED_NO_ROUTE
            },
            None => NETWORK_WIFI_DISABLED,
        }
    }
}

/// Once connected, the icon follows the route to the internet: a full route,
/// or connectivity that was not checked (`Unknown`), shows the wired
/// icon on a wired link and the signal-strength icon on wifi; any other
/// connectivity shows the no-route icon of the link's kind.
pub proof fn lemma_connected_icon_follows_the_route(info: NetworkInfo)
    requires
        info.connection_state is ConnectedLocal || info.connection_state is ConnectedSite
            || info.connection_state is ConnectedGlobal,
    ensures
        info.specific_info matches Some(SpecificNetworkInfo::Wired) ==> spec_network_icon(info)
            == if info.connectivity is Full || info.connectivity is Unknown {
            NETWORK_WIRED_CONNECTED
        } else {
            NETWORK_WIRED_NO_ROUTE
        },
        info.specific_info matches Some(SpecificNetworkInfo::WiFi { wifi_strength, .. })
            ==> spec_network_icon(info) == if info.connectivity is Full || info.connectivity is Unknown {
            spec_strength_icon(wifi_strength)
        } else {
            NETWORK_WIFI_NO_ROUTE
        },
{
}

/// Returns an appropriate icon name for the current networking state.
pub fn get_icon(info: &NetworkInfo) -> (icon: &'static str)
    ensures
        icon == spec_network_icon(*info),
{
    if info.connection_state == State::Connecting {
        return match info.device_kind {
            Some(DeviceKind::Wired) => NETWORK_WIRED_CONNECTING,
            Some(DeviceKind::WiFi) | None => NETWORK_WIFI_CONNECTING,
        };
    }
    if let State::Disconnected | State::Disconnecting | State::Asleep | State::Unknown =
        info.connection_state {
        return if info.wifi_enabled {
            NETWORK_WIFI_DISCONNECTED
        } else {
            NETWORK_WIFI_DISABLED
        };
    }
    match info.specific_info {
        Some(SpecificNetworkInfo::WiFi { wifi_strength, .. }) => {
            if info.has_full_route() {
                get_strength_icon(wifi_strength)
            } else {
                NETWORK_WIFI_NO_ROUTE
            }
        },
        Some(SpecificNetworkInfo::Wired) => {
            if info.has_full_route() {
                NETWORK_WIRED_CONNECTED
            } else {
                NETWORK_WIRED_NO_ROUTE
            }
        },
        // connected, but to a device type we don't distinguish (e.g. mobile
        // broadband); there's no generic "connected" icon bundled, so this
        // falls back to the same icon as the wifi radio being off
        None => NETWORK_WIFI_DISABLED,
    }
}

/// The wifi signal icon for a strength percentage.
pub fn get_strength_icon(strength: u8) -> (icon: &'static str)
    ensures
        icon == spec_strength_icon(strength),
{
    let icons: [&'static str; 4] = NETWORK_WIFI_ICON_NAMES;
    proof {
        assert(icons@ == seq![RADIOWAVES_4, RADIOWAVES_3, RADIOWAVES_2, RADIOWAVES_1]);
    }
    percentage_to_icon_from_list(strength, icons.as_slice())
}

} // verus!
