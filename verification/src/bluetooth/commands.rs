//! Commands the UI sends to the Bluetooth service.

use vstd::prelude::*;

use crate::bluetooth::agent::PairingReply;
use crate::bluetooth::state::Address;

verus! {

/// Commands the UI can send to the Bluetooth service.
///
/// Discovery needs a persistent service-side task (the discovery stream
/// must stay alive for the whole session and auto-stop after a timeout),
/// which a one-shot UI call can't manage on its own.
#[derive(Debug, Clone)]
pub enum BluetoothCommand {
    StartDiscovery,
    StopDiscovery,
    Pair(Address),
    SetTrusted(Address, bool),
    Remove(Address),
    /// A reply to the currently pending pairing prompt, if any.
    PairingReply(PairingReply),
    /// Rejects the currently pending pairing prompt, if any.
    CancelPairing,
}

/// Starts a device discovery session. A no-op if one is already running.
pub fn start_discovery() -> (c: BluetoothCommand)
    ensures
        c is StartDiscovery,
{
    BluetoothCommand::StartDiscovery
}

/// Stops the current device discovery session, if any.
pub fn stop_discovery() -> (c: BluetoothCommand)
    ensures
        c is StopDiscovery,
{
    BluetoothCommand::StopDiscovery
}

/// Initiates pairing with a device by address.
pub fn pair(address: Address) -> (c: BluetoothCommand)
    ensures
        c == BluetoothCommand::Pair(address),
{
    BluetoothCommand::Pair(address)
}

/// Sets whether a device is trusted (auto-connect/auto-authorize).
pub fn set_trusted(address: Address, trusted: bool) -> (c: BluetoothCommand)
    ensures
        c == BluetoothCommand::SetTrusted(address, trusted),
{
    BluetoothCommand::SetTrusted(address, trusted)
}

/// Removes (unpairs and forgets) a device by address.
pub fn remove(address: Address) -> (c: BluetoothCommand)
    ensures
        c == BluetoothCommand::Remove(address),
{
    BluetoothCommand::Remove(address)
}

/// Responds to the current pairing prompt, if any.
pub fn pairing_reply(reply: PairingReply) -> (c: BluetoothCommand)
    ensures
        c == BluetoothCommand::PairingReply(reply),
{
    BluetoothCommand::PairingReply(reply)
}

/// Rejects the current pairing prompt, if any.
pub fn cancel_pairing() -> (c: BluetoothCommand)
    ensures
        c is CancelPairing,
{
    BluetoothCommand::CancelPairing
}

} // verus!
