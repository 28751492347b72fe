//! NetworkManager enumerations and their numeric D-Bus encodings.

use vstd::prelude::*;

verus! {

#[derive(Debug, Clone, Copy, PartialEq, Eq, Structural)]
pub enum State {
    /// Networking state is unknown. This indicates a daemon error that makes it
    /// unable to reasonably assess the state. In such event the applications
    /// are expected to assume Internet connectivity might be present and not
    /// disable controls that require network access. The graphical shells may
    /// hide the network accessibility indicator altogether since no meaningful
    /// status indication can be provided.
    Unknown,
    /// Networking is not enabled, the system is being suspended or resumed from
    /// suspend.
    Asleep,
    /// There is no active network connection. The graphical shell should
    /// indicate no network connectivity and the applications should not attempt
    /// to access the network.
    Disconnected,
    /// Network connections are being cleaned up. The applications should tear
    /// down their network sessions.
    Disconnecting,
    /// A network connection is being started The graphical shell should
    /// indicate the network is being connected while the applications should
    /// still make no attempts to connect the network.
    Connecting,
    /// There is only local IPv4 and/or IPv6 connectivity, but no default route
    /// to access the Internet. The graphical shell should indicate no network
    /// connectivity.
    ConnectedLocal,
    /// There is only site-wide IPv4 and/or IPv6 connectivity. This means a
    /// default route is available, but the Internet connectivity check (see
    /// "Connectivity" property) did not succeed. The graphical shell should
    /// indicate limited network connectivity.
    ConnectedSite,
    /// There is global IPv4 and/or IPv6 Internet connectivity This means the
    /// Internet connectivity check succeeded, the graphical shell should
    /// indicate full network connectivity.
    ConnectedGlobal,
}

/// The State value NetworkManager encodes as `code`.
pub open spec fn state_from_code(code: u32) -> State {
    if code == 10 {
        State::Asleep
    } else if code == 20 {
        State::Disconnected
    } else if code == 30 {
        State::Disconnecting
    } else if code == 40 {
        State::Connecting
    } else if code == 50 {
        State::ConnectedLocal
    } else if code == 60 {
        State::ConnectedSite
    } else if code == 70 {
        State::ConnectedGlobal
    } else {
        State::Unknown
    }
}

impl From<u32> for State {
    fn from(value: u32) -> (s: Self) {
        match value {
            10 => Self::Asleep,
            20 => Self::Disconnected,
            30 => Self::Disconnecting,
            40 => Self::Connecting,
            50 => Self::ConnectedLocal,
            60 => Self::ConnectedSite,
            70 => Self::ConnectedGlobal,
            _ => Self::Unknown,
        }
    }
}

impl vstd::std_specs::convert::FromSpecImpl<u32> for State {
    open spec fn obeys_from_spec() -> bool {
        true
    }

    open spec fn from_spec(v: u32) -> State {
        state_from_code(v)
    }
}

impl Default for State {
    fn default() -> (s: Self)
        ensures
            s == State::Unknown,
    {
        State::Unknown
    }
}

#[derive(Debug, Clone, Copy, PartialEq, Eq, Structural)]
pub enum DeviceType {
    /// Unknown device.
    Unknown,
    /// Generic support for unrecognized device types.
    Generic,
    /// A wired ethernet device.
    Ethernet,
    /// An 802.11 Wi-Fi device.
    Wifi,
    /// Not used.
    Unused1,
    /// Not used.
    Unused2,
    /// A Bluetooth device supporting PAN or DUN access protocols.
    Bt,
    /// An OLPC XO mesh networking device.
    OlpcMesh,
    /// An 802.16e Mobile WiMAX broadband device.
    Wimax,
    /// A modem supporting analog telephone, CDMA/EVDO, GSM/UMTS, or LTE network
    /// access protocols.
    Modem,
    /// An IP-over-InfiniBand device.
    Infiniband,
    /// A bond controller interface.
    Bond,
    /// An 802.1Q VLAN interface.
    Vlan,
    /// ADSL modem.
    Adsl,
    /// A bridge controller interface.
    Bridge,
    /// A team controller interface.
    Team,
    /// A TUN or TAP interface.
    Tun,
    /// An IP tunnel interface.
    IpTunnel,
    /// A MACVLAN interface.
    Macvlan,
    /// A VXLAN interface.
    Vxlan,
    /// A VETH interface.
    Veth,
    /// A MACsec interface.
    Macsec,
    /// A dummy interface.
    Dummy,
    /// A PPP interface.
    Ppp,
    /// An Open vSwitch interface.
    OvsInterface,
    /// An Open vSwitch port.
    OvsPort,
    /// An Open vSwitch bridge.
    OvsBridge,
    /// An IEEE 802.15.4 (WPAN) MAC Layer Device.
    Wpan,
    /// 6LoWPAN interface.
    Lowpan6,
    /// A WireGuard interface.
    Wireguard,
    /// An 802.11 Wi-Fi P2P device. Since: 1.16.
    WifiP2p,
    /// A VRF (Virtual Routing and Forwarding) interface. Since: 1.24.
    Vrf,
    /// A loopback interface. Since: 1.42.
    Loopback,
    /// An HSR/PRP device. Since: 1.46.
    Hsr,
    /// An IPVLAN device. Since: 1.52.
    Ipvlan,
}

/// The DeviceType value NetworkManager encodes as `code`.
pub open spec fn device_type_from_code(code: u32) -> DeviceType {
    if code == 1 {
        DeviceType::Ethernet
    } else if code == 2 {
        DeviceType::Wifi
    } else if code == 5 {
        DeviceType::Bt
    } else if code == 6 {
        DeviceType::OlpcMesh
    } else if code == 7 {
        DeviceType::Wimax
    } else if code == 8 {
        DeviceType::Modem
    } else if code == 9 {
        DeviceType::Infiniband
    } else if code == 10 {
        DeviceType::Bond
    } else if code == 11 {
        DeviceType::Vlan
    } else if code == 12 {
        DeviceType::Adsl
    } else if code == 13 {
        DeviceType::Bridge
    } else if code == 14 {
        DeviceType::Generic
    } else if code == 15 {
        DeviceType::Team
    } else if code == 16 {
        DeviceType::Tun
    } else if code == 17 {
        DeviceType::IpTunnel
    } else if code == 18 {
        DeviceType::Macvlan
    } else if code == 19 {
        DeviceType::Vxlan
    } else if code == 20 {
        DeviceType::Veth
    } else if code == 21 {
        DeviceType::Macsec
    } else if code == 22 {
        DeviceType::Dummy
    } else if code == 23 {
        DeviceType::Ppp
    } else if code == 24 {
        DeviceType::OvsInterface
    } else if code == 25 {
        DeviceType::OvsPort
    } else if code == 26 {
        DeviceType::OvsBridge
    } else if code == 27 {
        DeviceType::Wpan
    } else if code == 28 {
        DeviceType::Lowpan6
    } else if code == 29 {
        DeviceType::Wireguard
    } else if code == 30 {
        DeviceType::WifiP2p
    } else if code == 31 {
        DeviceType::Vrf
    } else if code == 32 {
        DeviceType::Loopback
    } else {
        DeviceType::Unknown
    }
}

impl From<u32> for DeviceType {
    fn from(value: u32) -> (s: Self) {
        match value {
            1 => Self::Ethernet,
            2 => Self::Wifi,
            5 => Self::Bt,
            6 => Self::OlpcMesh,
            7 => Self::Wimax,
            8 => Self::Modem,
            9 => Self::Infiniband,
            10 => Self::Bond,
            11 => Self::Vlan,
            12 => Self::Adsl,
            13 => Self::Bridge,
            14 => Self::Generic,
            15 => Self::Team,
            16 => Self::Tun,
            17 => Self::IpTunnel,
            18 => Self::Macvlan,
            19 => Self::Vxlan,
            20 => Self::Veth,
            21 => Self::Macsec,
            22 => Self::Dummy,
            23 => Self::Ppp,
            24 => Self::OvsInterface,
            25 => Self::OvsPort,
            26 => Self::OvsBridge,
            27 => Self::Wpan,
            28 => Self::Lowpan6,
            29 => Self::Wireguard,
            30 => Self::WifiP2p,
            31 => Self::Vrf,
            32 => Self::Loopback,
            _ => Self::Unknown,
        }
    }
}

impl vstd::std_specs::convert::FromSpecImpl<u32> for DeviceType {
    open spec fn obeys_from_spec() -> bool {
        true
    }

    open spec fn from_spec(v: u32) -> DeviceType {
        device_type_from_code(v)
    }
}

impl Default for DeviceType {
    fn default() -> (s: Self)
        ensures
            s == DeviceType::Unknown,
    {
        DeviceType::Unknown
    }
}

#[derive(Debug, Clone, Copy, PartialEq, Eq, Structural)]
pub enum DeviceState {
    /// The device's state is unknown.
    Unknown,
    /// The device is recognized, but not managed by NetworkManager.
    Unmanaged,
    /// The device is managed by NetworkManager, but is not available for use.
    /// Reasons may include the wireless switched off, missing firmware, no
    /// ethernet carrier, missing supplicant or modem manager, etc.
    Unavailable,
    /// The device can be activated, but is currently idle and not connected to
    /// a network.
    Disconnected,
    /// The device is preparing the connection to the network. This may include
    /// operations like changing the MAC address, setting physical link
    /// properties, and anything else required to connect to the requested
    /// network.
    Prepare,
    /// The device is connecting to the requested network. This may include
    /// operations like associating with the Wi-Fi AP, dialing the modem,
    /// connecting to the remote Bluetooth device, etc.
    Config,
    /// The device requires more information to continue connecting to the
    /// requested network. This includes secrets like WiFi passphrases, login
    /// passwords, PIN codes, etc.
    NeedAuth,
    /// The device is requesting IPv4 and/or IPv6 addresses and routing
    /// information from the network.
    IpConfig,
    /// The device is checking whether further action is required for the
    /// requested network connection. This may include checking whether only
    /// local network access is available, whether a captive portal is blocking
    /// access to the Internet, etc.
    IpCheck,
    /// The device is waiting for a secondary connection (like a VPN) which must
    /// activated before the device can be activated.
    Secondaries,
    /// The device has a network connection, either local or global.
    Activated,
    /// A disconnection from the current network connection was requested, and
    /// the device is cleaning up resources used for that connection. The
    /// network connection may still be valid.
    Deactivating,
    /// The device failed to connect to the requested network and is cleaning up
    /// the connection request.
    Failed,
}

/// The DeviceState value NetworkManager encodes as `code`.
pub open spec fn device_state_from_code(code: u32) -> DeviceState {
    if code == 10 {
        DeviceState::Unmanaged
    } else if code == 20 {
        DeviceState::Unavailable
    } else if code == 30 {
        DeviceState::Disconnected
    } else if code == 40 {
        DeviceState::Prepare
    } else if code == 50 {
        DeviceState::Config
    } else if code == 60 {
        DeviceState::NeedAuth
    } else if code == 70 {
        DeviceState::IpConfig
    } else if code == 80 {
        DeviceState::IpCheck
    } else if code == 90 {
        DeviceState::Secondaries
    } else if code == 100 {
        DeviceState::Activated
    } else if code == 110 {
        DeviceState::Deactivating
    } else if code == 120 {
        DeviceState::Failed
    } else {
        DeviceState::Unknown
    }
}

impl From<u32> for DeviceState {
    fn from(value: u32) -> (s: Self) {
        match value {
            10 => Self::Unmanaged,
            20 => Self::Unavailable,
            30 => Self::Disconnected,
            40 => Self::Prepare,
            50 => Self::Config,
            60 => Self::NeedAuth,
            70 => Self::IpConfig,
            80 => Self::IpCheck,
            90 => Self::Secondaries,
            100 => Self::Activated,
            110 => Self::Deactivating,
            120 => Self::Failed,
            _ => Self::Unknown,
        }
    }
}

impl vstd::std_specs::convert::FromSpecImpl<u32> for DeviceState {
    open spec fn obeys_from_spec() -> bool {
        true
    }

    open spec fn from_spec(v: u32) -> DeviceState {
        device_state_from_code(v)
    }
}

impl Default for DeviceState {
    fn default() -> (s: Self)
        ensures
            s == DeviceState::Unknown,
    {
        DeviceState::Unknown
    }
}

#[derive(Debug, Clone, Copy, PartialEq, Eq, Structural)]
pub enum DeviceStateReason {
    /// No reason given
    NoReason,
    /// Unknown error
    Unknown,
    /// Device is now managed
    NowManaged,
    /// Device is now unmanaged
    NowUnmanaged,
    /// The device could not be readied for configuration
    ConfigFailed,
    /// IP configuration could not be reserved (no available address, timeout,
    /// etc)
    IpConfigUnavailable,
    /// The IP config is no longer valid
    IpConfigExpired,
    /// Secrets were required, but not provided
    NoSecrets,
    /// 802.1x supplicant disconnected
    SupplicantDisconnect,
    /// 802.1x supplicant configuration failed
    SupplicantConfigFailed,
    /// 802.1x supplicant failed
    SupplicantFailed,
    /// 802.1x supplicant took too long to authenticate
    SupplicantTimeout,
    /// PPP service failed to start
    PppStartFailed,
    /// PPP service disconnected
    PppDisconnect,
    /// PPP failed
    PppFailed,
    /// DHCP client failed to start
    DhcpStartFailed,
    /// DHCP client error
    DhcpError,
    /// DHCP client failed
    DhcpFailed,
    /// Shared connection service failed to start
    SharedStartFailed,
    /// Shared connection service failed
    SharedFailed,
    /// AutoIP service failed to start
    AutoipStartFailed,
    /// AutoIP service error
    AutoipError,
    /// AutoIP service failed
    AutoipFailed,
    /// The line is busy
    ModemBusy,
    /// No dial tone
    ModemNoDialTone,
    /// No carrier could be established
    ModemNoCarrier,
    /// The dialing request timed out
    ModemDialTimeout,
    /// The dialing attempt failed
    ModemDialFailed,
    /// Modem initialization failed
    ModemInitFailed,
    /// Failed to select the specified APN
    GsmApnFailed,
    /// Not searching for networks
    GsmRegistrationNotSearching,
    /// Network registration denied
    GsmRegistrationDenied,
    /// Network registration timed out
    GsmRegistrationTimeout,
    /// Failed to register with the requested network
    GsmRegistrationFailed,
    /// PIN check failed
    GsmPinCheckFailed,
    /// Necessary firmware for the device may be missing
    FirmwareMissing,
    /// The device was removed
    Removed,
    /// NetworkManager went to sleep
    Sleeping,
    /// The device's active connection disappeared
    ConnectionRemoved,
    /// Device disconnected by user or client
    UserRequested,
    /// Carrier/link changed
    Carrier,
    /// The device's existing connection was assumed
    ConnectionAssumed,
    /// The supplicant is now available
    SupplicantAvailable,
    /// The modem could not be found
    ModemNotFound,
    /// The Bluetooth connection failed or timed out
    BtFailed,
    /// GSM Modem's SIM Card not inserted
    GsmSimNotInserted,
    /// GSM Modem's SIM Pin required
    GsmSimPinRequired,
    /// GSM Modem's SIM Puk required
    GsmSimPukRequired,
    /// GSM Modem's SIM wrong
    GsmSimWrong,
    /// InfiniBand device does not support connected mode
    InfinibandMode,
    /// A dependency of the connection failed
    DependencyFailed,
    /// Problem with the RFC 2684 Ethernet over ADSL bridge
    Br2684Failed,
    /// ModemManager not running
    ModemManagerUnavailable,
    /// The Wi-Fi network could not be found
    SsidNotFound,
    /// A secondary connection of the base connection failed
    SecondaryConnectionFailed,
    /// DCB or FCoE setup failed
    DcbFcoeFailed,
    /// teamd control failed
    TeamdControlFailed,
    /// Modem failed or no longer available
    ModemFailed,
    /// Modem now ready and available
    ModemAvailable,
    /// SIM PIN was incorrect
    SimPinIncorrect,
    /// New connection activation was enqueued
    NewActivation,
    /// the device's parent changed
    ParentChanged,
    /// the device parent's management changed
    ParentManagedChanged,
    /// problem communicating with Open vSwitch database
    OvsdbFailed,
    /// a duplicate IP address was detected
    IpAddressDuplicate,
    /// The selected IP method is not supported
    IpMethodUnsupported,
    /// configuration of SR-IOV parameters failed
    SriovConfigurationFailed,
    /// The Wi-Fi P2P peer could not be found
    PeerNotFound,
    /// The device handler dispatcher returned an error. Since: 1.46
    DeviceHandlerFailed,
    /// The device is unmanaged because the device type is unmanaged by default.
    /// Since: 1.48
    UnmanagedByDefault,
    /// The device is unmanaged because it is an external device and is
    /// unconfigured (down or without addresses). Since: 1.48
    UnmanagedExternalDown,
    /// The device is unmanaged because the link is not initialized by udev.
    /// Since: 1.48
    UnmanagedLinkNotInit,
    /// The device is unmanaged because NetworkManager is quitting. Since: 1.48
    UnmanagedQuitting,
    /// The device is unmanaged because networking is disabled or the system is
    /// suspended. Since: 1.48
    UnmanagedSleeping,
    /// The device is unmanaged by user decision in NetworkManager.conf
    /// ('unmanaged' in a [device*] section). Since: 1.48
    UnmanagedUserConf,
    /// The device is unmanaged by explicit user decision (e.g. 'nmcli device
    /// set $DEV managed no'). Since: 1.48
    UnmanagedUserExplicit,
    /// The device is unmanaged by user decision via settings plugin
    /// ('unmanaged-devices' for keyfile or 'NM_CONTROLLED=no' for ifcfg-rh).
    /// Since: 1.48
    UnmanagedUserSettings,
    /// The device is unmanaged via udev rule. Since: 1.48
    UnmanagedUserUdev,
}

/// The DeviceStateReason value NetworkManager encodes as `code`.
pub open spec fn device_state_reason_from_code(code: u32) -> DeviceStateReason {
    if code == 0 {
        DeviceStateReason::NoReason
    } else if code == 2 {
        DeviceStateReason::NowManaged
    } else if code == 3 {
        DeviceStateReason::NowUnmanaged
    } else if code == 4 {
        DeviceStateReason::ConfigFailed
    } else if code == 5 {
        DeviceStateReason::IpConfigUnavailable
    } else if code == 6 {
        DeviceStateReason::IpConfigExpired
    } else if code == 7 {
        DeviceStateReason::NoSecrets
    } else if code == 8 {
        DeviceStateReason::SupplicantDisconnect
    } else if code == 9 {
        DeviceStateReason::SupplicantConfigFailed
    } else if code == 10 {
        DeviceStateReason::SupplicantFailed
    } else if code == 11 {
        DeviceStateReason::SupplicantTimeout
    } else if code == 12 {
        DeviceStateReason::PppStartFailed
    } else if code == 13 {
        DeviceStateReason::PppDisconnect
    } else if code == 14 {
        DeviceStateReason::PppFailed
    } else if code == 15 {
        DeviceStateReason::DhcpStartFailed
    } else if code == 16 {
        DeviceStateReason::DhcpError
    } else if code == 17 {
        DeviceStateReason::DhcpFailed
    } else if code == 18 {
        DeviceStateReason::SharedStartFailed
    } else if code == 19 {
        DeviceStateReason::SharedFailed
    } else if code == 20 {
        DeviceStateReason::AutoipStartFailed
    } else if code == 21 {
        DeviceStateReason::AutoipError
    } else if code == 22 {
        DeviceStateReason::AutoipFailed
    } else if code == 23 {
        DeviceStateReason::ModemBusy
    } else if code == 24 {
        DeviceStateReason::ModemNoDialTone
    } else if code == 25 {
        DeviceStateReason::ModemNoCarrier
    } else if code == 26 {
        DeviceStateReason::ModemDialTimeout
    } else if code == 27 {
        DeviceStateReason::ModemDialFailed
    } else if code == 28 {
        DeviceStateReason::ModemInitFailed
    } else if code == 29 {
        DeviceStateReason::GsmApnFailed
    } else if code == 30 {
        DeviceStateReason::GsmRegistrationNotSearching
    } else if code == 31 {
        DeviceStateReason::GsmRegistrationDenied
    } else if code == 32 {
        DeviceStateReason::GsmRegistrationTimeout
    } else if code == 33 {
        DeviceStateReason::GsmRegistrationFailed
    } else if code == 34 {
        DeviceStateReason::GsmPinCheckFailed
    } else if code == 35 {
        DeviceStateReason::FirmwareMissing
    } else if code == 36 {
        DeviceStateReason::Removed
    } else if code == 37 {
        DeviceStateReason::Sleeping
    } else if code == 38 {
        DeviceStateReason::ConnectionRemoved
    } else if code == 39 {
        DeviceStateReason::UserRequested
    } else if code == 40 {
        DeviceStateReason::Carrier
    } else if code == 41 {
        DeviceStateReason::ConnectionAssumed
    } else if code == 42 {
        DeviceStateReason::SupplicantAvailable
    } else if code == 43 {
        DeviceStateReason::ModemNotFound
    } else if code == 44 {
        DeviceStateReason::BtFailed
    } else if code == 45 {
        DeviceStateReason::GsmSimNotInserted
    } else if code == 46 {
        DeviceStateReason::GsmSimPinRequired
    } else if code == 47 {
        DeviceStateReason::GsmSimPukRequired
    } else if code == 48 {
        DeviceStateReason::GsmSimWrong
    } else if code == 49 {
        DeviceStateReason::InfinibandMode
    } else if code == 50 {
        DeviceStateReason::DependencyFailed
    } else if code == 51 {
        DeviceStateReason::Br2684Failed
    } else if code == 52 {
        DeviceStateReason::ModemManagerUnavailable
    } else if code == 53 {
        DeviceStateReason::SsidNotFound
    } else if code == 54 {
        DeviceStateReason::SecondaryConnectionFailed
    } else if code == 55 {
        DeviceStateReason::DcbFcoeFailed
    } else if code == 56 {
        DeviceStateReason::TeamdControlFailed
    } else if code == 57 {
        DeviceStateReason::ModemFailed
    } else if code == 58 {
        DeviceStateReason::ModemAvailable
    } else if code == 59 {
        DeviceStateReason::SimPinIncorrect
    } else if code == 60 {
        DeviceStateReason::NewActivation
    } else if code == 61 {
        DeviceStateReason::ParentChanged
    } else if code == 62 {
        DeviceStateReason::ParentManagedChanged
    } else if code == 63 {
        DeviceStateReason::OvsdbFailed
    } else if code == 64 {
        DeviceStateReason::IpAddressDuplicate
    } else if code == 65 {
        DeviceStateReason::IpMethodUnsupported
    } else if code == 66 {
        DeviceStateReason::SriovConfigurationFailed
    } else if code == 67 {
        DeviceStateReason::PeerNotFound
    } else if code == 68 {
        DeviceStateReason::DeviceHandlerFailed
    } else if code == 69 {
        DeviceStateReason::UnmanagedByDefault
    } else if code == 70 {
        DeviceStateReason::UnmanagedExternalDown
    } else if code == 71 {
        DeviceStateReason::UnmanagedLinkNotInit
    } else if code == 72 {
        DeviceStateReason::UnmanagedQuitting
    } else if code == 73 {
        DeviceStateReason::UnmanagedSleeping
    } else if code == 74 {
        DeviceStateReason::UnmanagedUserConf
    } else if code == 75 {
        DeviceStateReason::UnmanagedUserExplicit
    } else if code == 76 {
        DeviceStateReason::UnmanagedUserSettings
    } else if code == 77 {
        DeviceStateReason::UnmanagedUserUdev
    } else {
        DeviceStateReason::Unknown
    }
}

/// The NetworkManager code of each device state reason
/// (`NM_DEVICE_STATE_REASON_*`): the reasons are numbered 0 to 77 in the
/// order they are declared.
pub open spec fn device_state_reason_code(reason: DeviceStateReason) -> u32 {
    match reason {
        DeviceStateReason::NoReason => 0,
        DeviceStateReason::Unknown => 1,
        DeviceStateReason::NowManaged => 2,
        DeviceStateReason::NowUnmanaged => 3,
        DeviceStateReason::ConfigFailed => 4,
        DeviceStateReason::IpConfigUnavailable => 5,
        DeviceStateReason::IpConfigExpired => 6,
        DeviceStateReason::NoSecrets => 7,
        DeviceStateReason::SupplicantDisconnect => 8,
        DeviceStateReason::SupplicantConfigFailed => 9,
        DeviceStateReason::SupplicantFailed => 10,
        DeviceStateReason::SupplicantTimeout => 11,
        DeviceStateReason::PppStartFailed => 12,
        DeviceStateReason::PppDisconnect => 13,
        DeviceStateReason::PppFailed => 14,
        DeviceStateReason::DhcpStartFailed => 15,
        DeviceStateReason::DhcpError => 16,
        DeviceStateReason::DhcpFailed => 17,
        DeviceStateReason::SharedStartFailed => 18,
        DeviceStateReason::SharedFailed => 19,
        DeviceStateReason::AutoipStartFailed => 20,
        DeviceStateReason::AutoipError => 21,
        DeviceStateReason::AutoipFailed => 22,
        DeviceStateReason::ModemBusy => 23,
        DeviceStateReason::ModemNoDialTone => 24,
        DeviceStateReason::ModemNoCarrier => 25,
        DeviceStateReason::ModemDialTimeout => 26,
        DeviceStateReason::ModemDialFailed => 27,
        DeviceStateReason::ModemInitFailed => 28,
        DeviceStateReason::GsmApnFailed => 29,
        DeviceStateReason::GsmRegistrationNotSearching => 30,
        DeviceStateReason::GsmRegistrationDenied => 31,
        DeviceStateReason::GsmRegistrationTimeout => 32,
        DeviceStateReason::GsmRegistrationFailed => 33,
        DeviceStateReason::GsmPinCheckFailed => 34,
        DeviceStateReason::FirmwareMissing => 35,
        DeviceStateReason::Removed => 36,
        DeviceStateReason::Sleeping => 37,
        DeviceStateReason::ConnectionRemoved => 38,
        DeviceStateReason::UserRequested => 39,
        DeviceStateReason::Carrier => 40,
        DeviceStateReason::ConnectionAssumed => 41,
        DeviceStateReason::SupplicantAvailable => 42,
        DeviceStateReason::ModemNotFound => 43,
        DeviceStateReason::BtFailed => 44,
        DeviceStateReason::GsmSimNotInserted => 45,
        DeviceStateReason::GsmSimPinRequired => 46,
        DeviceStateReason::GsmSimPukRequired => 47,
        DeviceStateReason::GsmSimWrong => 48,
        DeviceStateReason::InfinibandMode => 49,
        DeviceStateReason::DependencyFailed => 50,
        DeviceStateReason::Br2684Failed => 51,
        DeviceStateReason::ModemManagerUnavailable => 52,
        DeviceStateReason::SsidNotFound => 53,
        DeviceStateReason::SecondaryConnectionFailed => 54,
        DeviceStateReason::DcbFcoeFailed => 55,
        DeviceStateReason::TeamdControlFailed => 56,
        DeviceStateReason::ModemFailed => 57,
        DeviceStateReason::ModemAvailable => 58,
        DeviceStateReason::SimPinIncorrect => 59,
        DeviceStateReason::NewActivation => 60,
        DeviceStateReason::ParentChanged => 61,
        DeviceStateReason::ParentManagedChanged => 62,
        DeviceStateReason::OvsdbFailed => 63,
        DeviceStateReason::IpAddressDuplicate => 64,
        DeviceStateReason::IpMethodUnsupported => 65,
        DeviceStateReason::SriovConfigurationFailed => 66,
        DeviceStateReason::PeerNotFound => 67,
        DeviceStateReason::DeviceHandlerFailed => 68,
        DeviceStateReason::UnmanagedByDefault => 69,
        DeviceStateReason::UnmanagedExternalDown => 70,
        DeviceStateReason::UnmanagedLinkNotInit => 71,
        DeviceStateReason::UnmanagedQuitting => 72,
        DeviceStateReason::UnmanagedSleeping => 73,
        DeviceStateReason::UnmanagedUserConf => 74,
        DeviceStateReason::UnmanagedUserExplicit => 75,
        DeviceStateReason::UnmanagedUserSettings => 76,
        DeviceStateReason::UnmanagedUserUdev => 77,
    }
}

/// Decoding a reason's code gives the reason back, for every reason, and
/// a code decodes as `Unknown` exactly when it is 1 (the code of
/// `Unknown`) or no reason's code (above 77).
pub proof fn lemma_device_state_reason_round_trip(reason: DeviceStateReason, code: u32)
    ensures
        device_state_reason_from_code(device_state_reason_code(reason)) == reason,
        device_state_reason_from_code(code) == DeviceStateReason::Unknown <==> (code == 1 || code > 77),
        code > 77 ==> forall|r: DeviceStateReason| #[trigger] device_state_reason_code(r) != code,
{
}

impl From<u32> for DeviceStateReason {
    fn from(value: u32) -> (s: Self) {
        match value {
            0 => Self::NoReason,
            2 => Self::NowManaged,
            3 => Self::NowUnmanaged,
            4 => Self::ConfigFailed,
            5 => Self::IpConfigUnavailable,
            6 => Self::IpConfigExpired,
            7 => Self::NoSecrets,
            8 => Self::SupplicantDisconnect,
            9 => Self::SupplicantConfigFailed,
            10 => Self::SupplicantFailed,
            11 => Self::SupplicantTimeout,
            12 => Self::PppStartFailed,
            13 => Self::PppDisconnect,
            14 => Self::PppFailed,
            15 => Self::DhcpStartFailed,
            16 => Self::DhcpError,
            17 => Self::DhcpFailed,
            18 => Self::SharedStartFailed,
            19 => Self::SharedFailed,
            20 => Self::AutoipStartFailed,
            21 => Self::AutoipError,
            22 => Self::AutoipFailed,
            23 => Self::ModemBusy,
            24 => Self::ModemNoDialTone,
            25 => Self::ModemNoCarrier,
            26 => Self::ModemDialTimeout,
            27 => Self::ModemDialFailed,
            28 => Self::ModemInitFailed,
            29 => Self::GsmApnFailed,
            30 => Self::GsmRegistrationNotSearching,
            31 => Self::GsmRegistrationDenied,
            32 => Self::GsmRegistrationTimeout,
            33 => Self::GsmRegistrationFailed,
            34 => Self::GsmPinCheckFailed,
            35 => Self::FirmwareMissing,
            36 => Self::Removed,
            37 => Self::Sleeping,
            38 => Self::ConnectionRemoved,
            39 => Self::UserRequested,
            40 => Self::Carrier,
            41 => Self::ConnectionAssumed,
            42 => Self::SupplicantAvailable,
            43 => Self::ModemNotFound,
            44 => Self::BtFailed,
            45 => Self::GsmSimNotInserted,
            46 => Self::GsmSimPinRequired,
            47 => Self::GsmSimPukRequired,
            48 => Self::GsmSimWrong,
            49 => Self::InfinibandMode,
            50 => Self::DependencyFailed,
            51 => Self::Br2684Failed,
            52 => Self::ModemManagerUnavailable,
            53 => Self::SsidNotFound,
            54 => Self::SecondaryConnectionFailed,
            55 => Self::DcbFcoeFailed,
            56 => Self::TeamdControlFailed,
            57 => Self::ModemFailed,
            58 => Self::ModemAvailable,
            59 => Self::SimPinIncorrect,
            60 => Self::NewActivation,
            61 => Self::ParentChanged,
            62 => Self::ParentManagedChanged,
            63 => Self::OvsdbFailed,
            64 => Self::IpAddressDuplicate,
            65 => Self::IpMethodUnsupported,
            66 => Self::SriovConfigurationFailed,
            67 => Self::PeerNotFound,
            68 => Self::DeviceHandlerFailed,
            69 => Self::UnmanagedByDefault,
            70 => Self::UnmanagedExternalDown,
            71 => Self::UnmanagedLinkNotInit,
            72 => Self::UnmanagedQuitting,
            73 => Self::UnmanagedSleeping,
            74 => Self::UnmanagedUserConf,
            75 => Self::UnmanagedUserExplicit,
            76 => Self::UnmanagedUserSettings,
            77 => Self::UnmanagedUserUdev,
            _ => Self::Unknown,
        }
    }
}

impl vstd::std_specs::convert::FromSpecImpl<u32> for DeviceStateReason {
    open spec fn obeys_from_spec() -> bool {
        true
    }

    open spec fn from_spec(v: u32) -> DeviceStateReason {
        device_state_reason_from_code(v)
    }
}

impl Default for DeviceStateReason {
    fn default() -> (s: Self)
        ensures
            s == DeviceStateReason::NoReason,
    {
        DeviceStateReason::NoReason
    }
}

#[derive(Debug, Clone, Copy, PartialEq, Eq, Structural)]
pub enum ActiveConnectionState {
    /// The state of the connection is unknown.
    Unknown,
    /// A network connection is being prepared.
    Activating,
    /// There is a connection to the network.
    Activated,
    /// The network connection is being torn down and cleaned up.
    Deactivating,
    /// The network connection is disconnected and will be removed.
    Deactivated,
}

#[derive(Debug, Clone, Copy, PartialEq, Eq, Structural)]
pub enum ActiveConnectionStateReason {
    /// The reason for the active connection state change is unknown.
    Unknown,
    /// No reason was given for the active connection state change.
    NoReason,
    /// The active connection changed state because the user disconnected it.
    UserDisconnected,
    /// The active connection changed state because the device it was using was
    /// disconnected.
    DeviceDisconnected,
    /// The service providing the VPN connection was stopped.
    ServiceStopped,
    /// The IP config of the active connection was invalid.
    IpConfigInvalid,
    /// The connection attempt to the VPN service timed out.
    ConnectTimeout,
    /// A timeout occurred while starting the service providing the VPN
    /// connection.
    ServiceStartTimeout,
    /// Starting the service providing the VPN connection failed.
    ServiceStartFailed,
    /// Necessary secrets for the connection were not provided.
    NoSecrets,
    /// Authentication to the server failed.
    LoginFailed,
    /// The connection was deleted from settings.
    ConnectionRemoved,
    /// Master connection of this connection failed to activate.
    DependencyFailed,
    /// Could not create the software device link.
    DeviceRealizeFailed,
    /// The device this connection depended on disappeared.
    DeviceRemoved,
}

/// The ActiveConnectionStateReason value NetworkManager encodes as `code`.
pub open spec fn active_connection_state_reason_from_code(code: u32) -> ActiveConnectionStateReason {
    if code == 1 {
        ActiveConnectionStateReason::NoReason
    } else if code == 2 {
        ActiveConnectionStateReason::UserDisconnected
    } else if code == 3 {
        ActiveConnectionStateReason::DeviceDisconnected
    } else if code == 4 {
        ActiveConnectionStateReason::ServiceStopped
    } else if code == 5 {
        ActiveConnectionStateReason::IpConfigInvalid
    } else if code == 6 {
        ActiveConnectionStateReason::ConnectTimeout
    } else if code == 7 {
        ActiveConnectionStateReason::ServiceStartTimeout
    } else if code == 8 {
        ActiveConnectionStateReason::ServiceStartFailed
    } else if code == 9 {
        ActiveConnectionStateReason::NoSecrets
    } else if code == 10 {
        ActiveConnectionStateReason::LoginFailed
    } else if code == 11 {
        ActiveConnectionStateReason::ConnectionRemoved
    } else if code == 12 {
        ActiveConnectionStateReason::DependencyFailed
    } else if code == 13 {
        ActiveConnectionStateReason::DeviceRealizeFailed
    } else if code == 14 {
        ActiveConnectionStateReason::DeviceRemoved
    } else {
        ActiveConnectionStateReason::Unknown
    }
}

impl From<u32> for ActiveConnectionStateReason {
    fn from(value: u32) -> (s: Self) {
        match value {
            1 => Self::NoReason,
            2 => Self::UserDisconnected,
            3 => Self::DeviceDisconnected,
            4 => Self::ServiceStopped,
            5 => Self::IpConfigInvalid,
            6 => Self::ConnectTimeout,
            7 => Self::ServiceStartTimeout,
            8 => Self::ServiceStartFailed,
            9 => Self::NoSecrets,
            10 => Self::LoginFailed,
            11 => Self::ConnectionRemoved,
            12 => Self::DependencyFailed,
            13 => Self::DeviceRealizeFailed,
            14 => Self::DeviceRemoved,
            _ => Self::Unknown,
        }
    }
}

impl vstd::std_specs::convert::FromSpecImpl<u32> for ActiveConnectionStateReason {
    open spec fn obeys_from_spec() -> bool {
        true
    }

    open spec fn from_spec(v: u32) -> ActiveConnectionStateReason {
        active_connection_state_reason_from_code(v)
    }
}

impl Default for ActiveConnectionStateReason {
    fn default() -> (s: Self)
        ensures
            s == ActiveConnectionStateReason::Unknown,
    {
        ActiveConnectionStateReason::Unknown
    }
}

#[derive(Debug, Clone, Copy, PartialEq, Eq, Structural)]
pub enum ConnectivityState {
    /// Network connectivity is unknown. This means the connectivity checks are
    /// disabled (e.g. on server installations) or has not run yet. The
    /// graphical shell should assume the Internet connection might be available
    /// and not present a captive portal window.
    Unknown,
    /// The host is not connected to any network. There's no active connection
    /// that contains a default route to the internet and thus it makes no sense
    /// to even attempt a connectivity check. The graphical shell should use
    /// this state to indicate the network connection is unavailable.
    NotConnected,
    /// The Internet connection is hijacked by a captive portal gateway. The
    /// graphical shell may open a sandboxed web browser window (because the
    /// captive portals typically attempt a man-in-the-middle attacks against
    /// the https connections) for the purpose of authenticating to a gateway
    /// and retrigger the connectivity check with CheckConnectivity() when the
    /// browser window is dismissed.
    Portal,
    /// The host is connected to a network, does not appear to be able to reach
    /// the full Internet, but a captive portal has not been detected.
    Limited,
    /// The host is connected to a network, and appears to be able to reach the
    /// full Internet.
    Full,
}

/// The ConnectivityState value NetworkManager encodes as `code`.
pub open spec fn connectivity_state_from_code(code: u32) -> ConnectivityState {
    if code == 1 {
        ConnectivityState::NotConnected
    } else if code == 2 {
        ConnectivityState::Portal
    } else if code == 3 {
        ConnectivityState::Limited
    } else if code == 4 {
        ConnectivityState::Full
    } else {
        ConnectivityState::Unknown
    }
}

impl From<u32> for ConnectivityState {
    fn from(value: u32) -> (s: Self) {
        match value {
            1 => Self::NotConnected,
            2 => Self::Portal,
            3 => Self::Limited,
            4 => Self::Full,
            _ => Self::Unknown,
        }
    }
}

impl vstd::std_specs::convert::FromSpecImpl<u32> for ConnectivityState {
    open spec fn obeys_from_spec() -> bool {
        true
    }

    open spec fn from_spec(v: u32) -> ConnectivityState {
        connectivity_state_from_code(v)
    }
}

impl Default for ConnectivityState {
    fn default() -> (s: Self)
        ensures
            s == ConnectivityState::Unknown,
    {
        ConnectivityState::Unknown
    }
}

/// The security scheme an access point advertises.
#[derive(Debug, Clone, Copy, PartialEq, Eq, Structural)]
pub enum ApSecurity {
    /// No encryption.
    Open,
    /// Static WEP key.
    Wep,
    /// WPA/WPA2 personal (pre-shared key).
    Psk,
    /// WPA3 personal (simultaneous authentication of equals).
    Sae,
    /// 802.1X enterprise authentication.
    Enterprise,
}

/// NetworkManager's `NM_802_11_AP_FLAGS_PRIVACY` access point flag.
pub const AP_FLAGS_PRIVACY: u32 = 0x1;

/// NetworkManager's `NM_802_11_AP_SEC_KEY_MGMT_PSK` security flag.
pub const AP_SEC_KEY_MGMT_PSK: u32 = 0x100;

/// NetworkManager's `NM_802_11_AP_SEC_KEY_MGMT_802_1X` security flag.
pub const AP_SEC_KEY_MGMT_802_1X: u32 = 0x200;

/// NetworkManager's `NM_802_11_AP_SEC_KEY_MGMT_SAE` security flag.
pub const AP_SEC_KEY_MGMT_SAE: u32 = 0x400;

/// The scheme an access point with these `Flags`, `WpaFlags` and
/// `RsnFlags` uses: enterprise key management wins over SAE, SAE over PSK;
/// with no key management at all, the privacy flag means WEP.
pub open spec fn spec_security_from_flags(flags: u32, wpa_flags: u32, rsn_flags: u32) -> ApSecurity {
    let key_mgmt = wpa_flags | rsn_flags;
    if key_mgmt & AP_SEC_KEY_MGMT_802_1X != 0 {
        ApSecurity::Enterprise
    } else if key_mgmt & AP_SEC_KEY_MGMT_SAE != 0 {
        ApSecurity::Sae
    } else if key_mgmt & AP_SEC_KEY_MGMT_PSK != 0 {
        ApSecurity::Psk
    } else if flags & AP_FLAGS_PRIVACY != 0 {
        ApSecurity::Wep
    } else {
        ApSecurity::Open
    }
}

impl ApSecurity {
    pub fn from_flags(flags: u32, wpa_flags: u32, rsn_flags: u32) -> (s: ApSecurity)
        ensures
            s == spec_security_from_flags(flags, wpa_flags, rsn_flags),
    {
        let key_mgmt = wpa_flags | rsn_flags;
        if key_mgmt & AP_SEC_KEY_MGMT_802_1X != 0 {
            ApSecurity::Enterprise
        } else if key_mgmt & AP_SEC_KEY_MGMT_SAE != 0 {
            ApSecurity::Sae
        } else if key_mgmt & AP_SEC_KEY_MGMT_PSK != 0 {
            ApSecurity::Psk
        } else if flags & AP_FLAGS_PRIVACY != 0 {
            ApSecurity::Wep
        } else {
            ApSecurity::Open
        }
    }

    /// Whether connecting takes a password typed by the user: true for the
    /// schemes with an inline secret (WEP, PSK, SAE).
    pub fn requires_password(&self) -> (b: bool)
        ensures
            b == (*self is Wep || *self is Psk || *self is Sae),
    {
        match self {
            ApSecurity::Wep | ApSecurity::Psk | ApSecurity::Sae => true,
            ApSecurity::Open | ApSecurity::Enterprise => false,
        }
    }

    /// Whether the network is unencrypted.
    pub fn is_open(&self) -> (b: bool)
        ensures
            b == (*self is Open),
    {
        match self {
            ApSecurity::Open => true,
            _ => false,
        }
    }
}

} // verus!
