//! Outcomes of connection attempts, reported to the network menu.

use vstd::prelude::*;

verus! {

/// The outcome of a connection attempt, broadcast so the menu can show
/// specific feedback (e.g. distinguishing a wrong password from a generic
/// failure) instead of a connect button that silently does nothing.
#[derive(Debug, Clone)]
pub enum NetworkEvent {
    ConnectionSucceeded { ssid: String },
    ConnectionFailed { ssid: String, reason: ConnectFailureReason },
}

/// Why a connection attempt failed.
#[derive(Debug, Clone, Copy, PartialEq, Eq, Structural)]
pub enum ConnectFailureReason {
    /// NetworkManager reported `NO_SECRETS`: the password was missing,
    /// wrong, or otherwise rejected.
    WrongPassword,
    /// Any other failure (out of range, DHCP failure, association timeout,
    /// etc), or we simply timed out waiting to find out.
    Other,
}

} // verus!
