//! Commands the UI sends to the network service.

use vstd::prelude::*;

use crate::network::types::ApSecurity;

verus! {

/// Commands the UI can send to the network service.
///
/// The UI never touches D-Bus directly; every mutating operation goes
/// through this channel and is handled on the service's own event loop.
#[derive(Clone, Debug)]
pub enum NetworkCommand {
    SetWifiEnabled(bool),
    /// Requests a rescan. A no-op if a scan is already in flight.
    Scan,
    /// Connects to a wifi network by SSID. If NetworkManager already has a
    /// saved connection profile for this SSID, `password` is ignored and the
    /// saved secrets are used; otherwise a new profile is created. `security`
    /// determines what key-mgmt scheme to configure if `password` is given
    /// (ignored for `Open`/`Enterprise`, since those don't take an inline
    /// password).
    Connect { ssid: String, security: ApSecurity, password: Option<String> },
    /// Deactivates the current primary connection, if any.
    Disconnect,
    /// Deletes the saved connection profile at this object path.
    Forget(String),
}

/// Enables or disables the wifi radio.
pub fn set_wifi_enabled(enabled: bool) -> (c: NetworkCommand)
    ensures
        c == NetworkCommand::SetWifiEnabled(enabled),
{
    NetworkCommand::SetWifiEnabled(enabled)
}

/// Requests a wifi scan. Has no effect if a scan is already in progress.
pub fn scan() -> (c: NetworkCommand)
    ensures
        c is Scan,
{
    NetworkCommand::Scan
}

/// Connects to a wifi network by SSID.
///
/// If NetworkManager already has a saved connection for this SSID,
/// `password` is ignored. Otherwise a new connection profile is created,
/// using `password` (and `security` to pick the key-mgmt scheme) if the
/// network requires one.
pub fn connect(ssid: String, security: ApSecurity, password: Option<String>) -> (c: NetworkCommand)
    ensures
        c == (NetworkCommand::Connect { ssid, security, password }),
{
    NetworkCommand::Connect { ssid, security, password }
}

/// Disconnects the currently active connection, if any.
pub fn disconnect() -> (c: NetworkCommand)
    ensures
        c is Disconnect,
{
    NetworkCommand::Disconnect
}

/// Deletes a saved connection profile.
pub fn forget(connection: String) -> (c: NetworkCommand)
    ensures
        c == NetworkCommand::Forget(connection),
{
    NetworkCommand::Forget(connection)
}

} // verus!
