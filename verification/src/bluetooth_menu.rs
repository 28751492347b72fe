//! The Bluetooth menu's decisions: what it shows for the adapter and the
//! pairing prompt, and what each of the user's actions asks of the service.

use vstd::prelude::*;

use crate::bluetooth::agent::PairingReply;
use crate::bluetooth::commands::BluetoothCommand;
use crate::bluetooth::state::{
    Address, BluetoothState, DeviceInfo, PairingPrompt, PairingRequest, connected_addresses,
};
use crate::icons::{BLUETOOTH, BLUETOOTH_DOTS, BLUETOOTH_NO, BLUETOOTH_X};
use crate::text::{decimal, parse_u32, parsed_u32, push_decimal, push_zero_padded, zero_padded};

verus! {

/// The number of connected devices.
pub open spec fn connected_count(s: BluetoothState) -> nat {
    connected_addresses(s.device_map()).len()
}

/// The menu's icon: dots while discovering, the plain icon with a device
/// connected, a cross when powered but idle, and the disabled icon when the
/// adapter is off or missing.
pub open spec fn menu_icon(state: Option<BluetoothState>) -> Seq<char> {
    match state {
        Some(s) => if s.is_powered() && s.is_discovering() {
            BLUETOOTH_DOTS@
        } else if s.is_powered() && connected_count(s) > 0 {
            BLUETOOTH@
        } else if s.is_powered() {
            BLUETOOTH_X@
        } else {
            BLUETOOTH_NO@
        },
        None => BLUETOOTH_NO@,
    }
}

/// The icon for the Bluetooth menu.
pub fn get_icon(state: &Option<BluetoothState>) -> (icon: &'static str)
    ensures
        icon@ == menu_icon(*state),
{
    match state {
        Some(s) => {
            if s.powered() && s.discovering() {
                BLUETOOTH_DOTS
            } else if s.powered() && s.connected_device_count() > 0 {
                BLUETOOTH
            } else if s.powered() {
                BLUETOOTH_X
            } else {
                BLUETOOTH_NO
            }
        },
        None => BLUETOOTH_NO,
    }
}

/// The status line under the menu's header.
pub open spec fn status_text(state: Option<BluetoothState>) -> Seq<char> {
    match state {
        Some(s) => if !s.is_powered() {
            "Bluetooth disabled"@
        } else if s.is_discovering() {
            "Searching for devices..."@
        } else if connected_count(s) == 1 {
            "1 device connected"@
        } else if connected_count(s) > 0 {
            decimal(connected_count(s)) + " device(s) connected"@
        } else {
            "Bluetooth enabled"@
        },
        None => "Bluetooth unavailable"@,
    }
}

/// The status line under the menu's header.
pub fn get_status_text(state: &Option<BluetoothState>) -> (text: String)
    ensures
        text@ == status_text(*state),
{
    match state {
        Some(s) => {
            if !s.powered() {
                "Bluetooth disabled".to_owned()
            } else if s.discovering() {
                "Searching for devices...".to_owned()
            } else {
                let count = s.connected_device_count();
                if count == 1 {
                    "1 device connected".to_owned()
                } else if count > 0 {
                    let mut text = String::new();
                    push_decimal(&mut text, count as u64);
                    text.append(" device(s) connected");
                    text
                } else {
                    "Bluetooth enabled".to_owned()
                }
            }
        },
        None => "Bluetooth unavailable".to_owned(),
    }
}

/// Whether the adapter is known and discovering.
pub open spec fn is_scanning(state: Option<BluetoothState>) -> bool {
    state matches Some(s) && s.is_discovering()
}

/// The scan button's label: it stops a running scan, or starts one.
pub fn scan_button_label(state: &Option<BluetoothState>) -> (label: String)
    ensures
        label@ == if is_scanning(*state) {
            "Stop scanning"@
        } else {
            "Scan for devices"@
        },
{
    let scanning = match state {
        Some(s) => s.discovering(),
        None => false,
    };
    if scanning {
        "Stop scanning".to_owned()
    } else {
        "Scan for devices".to_owned()
    }
}

/// What the pairing prompt shows.
#[derive(Debug)]
pub struct PromptView {
    pub label: String,
    /// Whether the text entry for a code is shown.
    pub show_entry: bool,
    /// Whether the confirm and cancel buttons are shown.
    pub show_buttons: bool,
}

/// The pairing prompt's text, given how the device's address is written.
pub open spec fn prompt_label(request: PairingRequest, address: Seq<char>) -> Seq<char> {
    match request {
        PairingRequest::PinCode => "Enter the PIN code for "@ + address,
        PairingRequest::Passkey => "Enter the passkey for "@ + address,
        PairingRequest::ConfirmPasskey(p) => "Does "@ + address + " show the passkey "@
            + zero_padded(p as nat, 6) + "?"@,
        PairingRequest::Authorize => "Allow pairing with "@ + address + "?"@,
        PairingRequest::DisplayPinCode(pin) => "PIN code for "@ + address + ": "@ + pin@,
        PairingRequest::DisplayPasskey { passkey, entered } => "Passkey for "@ + address + ": "@
            + zero_padded(passkey as nat, 6) + " ("@ + decimal(entered as nat)
            + " digit(s) entered)"@,
    }
}

/// Whether a request collects a typed code.
pub open spec fn takes_entry(request: PairingRequest) -> bool {
    request is PinCode || request is Passkey
}

/// The code entry is offered exactly for the requests that wait for a typed
/// code, a PIN code or a passkey, which are the requests a submitted code
/// answers; such a request also shows the buttons, while a request that
/// only displays a code offers neither entry nor buttons.
pub proof fn lemma_entry_for_typed_codes(request: PairingRequest)
    ensures
        takes_entry(request) <==> (request is PinCode || request is Passkey),
        takes_entry(request) ==> takes_answer(request),
        (request is DisplayPinCode || request is DisplayPasskey) ==> !takes_entry(request)
            && !takes_answer(request),
{
}

/// Whether a request is answered with the confirm and cancel buttons.
pub open spec fn takes_answer(request: PairingRequest) -> bool {
    !(request is DisplayPinCode || request is DisplayPasskey)
}

/// What the pairing prompt shows for a request; `address` is the device's
/// address as text.
pub fn prompt_view(prompt: &PairingPrompt, address: &str) -> (view: PromptView)
    ensures
        view.label@ == prompt_label(prompt.request, address@),
        view.show_entry == takes_entry(prompt.request),
        view.show_entry <==> (prompt.request is PinCode || prompt.request is Passkey),
        view.show_buttons == takes_answer(prompt.request),
{
    match &prompt.request {
        PairingRequest::PinCode => {
            let mut label = "Enter the PIN code for ".to_owned();
            label.append(address);
            PromptView { label, show_entry: true, show_buttons: true }
        },
        PairingRequest::Passkey => {
            let mut label = "Enter the passkey for ".to_owned();
            label.append(address);
            PromptView { label, show_entry: true, show_buttons: true }
        },
        PairingRequest::ConfirmPasskey(passkey) => {
            let mut label = "Does ".to_owned();
            label.append(address);
            label.append(" show the passkey ");
            push_zero_padded(&mut label, *passkey as u64, 6);
            label.append("?");
            PromptView { label, show_entry: false, show_buttons: true }
        },
        PairingRequest::Authorize => {
            let mut label = "Allow pairing with ".to_owned();
            label.append(address);
            label.append("?");
            PromptView { label, show_entry: false, show_buttons: true }
        },
        PairingRequest::DisplayPinCode(pin) => {
            let mut label = "PIN code for ".to_owned();
            label.append(address);
            label.append(": ");
            label.append(pin.as_str());
            PromptView { label, show_entry: false, show_buttons: false }
        },
        PairingRequest::DisplayPasskey { passkey, entered } => {
            let mut label = "Passkey for ".to_owned();
            label.append(address);
            label.append(": ");
            push_zero_padded(&mut label, *passkey as u64, 6);
            label.append(" (");
            push_decimal(&mut label, *entered as u64);
            label.append(" digit(s) entered)");
            PromptView { label, show_entry: false, show_buttons: false }
        },
    }
}

/// What a device row asks of the menu.
#[derive(Debug, Clone, Copy, PartialEq, Eq, Structural)]
pub enum BluetoothDeviceOutput {
    Connect(Address),
    Disconnect(Address),
    Pair(Address),
    Remove(Address),
}

/// What clicking a device row asks for: pairing an unpaired device,
/// otherwise disconnecting a connected one or connecting it.
pub fn toggle_output(info: &DeviceInfo) -> (out: BluetoothDeviceOutput)
    ensures
        out == if !info.paired {
            BluetoothDeviceOutput::Pair(info.address)
        } else if info.connected {
            BluetoothDeviceOutput::Disconnect(info.address)
        } else {
            BluetoothDeviceOutput::Connect(info.address)
        },
{
    if !info.paired {
        BluetoothDeviceOutput::Pair(info.address)
    } else if info.connected {
        BluetoothDeviceOutput::Disconnect(info.address)
    } else {
        BluetoothDeviceOutput::Connect(info.address)
    }
}

/// What the user does in the Bluetooth menu.
#[derive(Debug)]
pub enum BluetoothMenuInput {
    ToggleBluetooth(bool),
    ToggleDiscovery,
    ConnectToDevice(Address),
    DisconnectFromDevice(Address),
    PairDevice(Address),
    RemoveDevice(Address),
    PairingSubmit(String),
    PairingConfirm,
    PairingCancel,
}

/// The menu input a device row's request becomes.
pub fn device_output_to_msg(output: BluetoothDeviceOutput) -> (msg: BluetoothMenuInput)
    ensures
        match output {
            BluetoothDeviceOutput::Connect(a) => msg == BluetoothMenuInput::ConnectToDevice(a),
            BluetoothDeviceOutput::Disconnect(a) => msg == BluetoothMenuInput::DisconnectFromDevice(a),
            BluetoothDeviceOutput::Pair(a) => msg == BluetoothMenuInput::PairDevice(a),
            BluetoothDeviceOutput::Remove(a) => msg == BluetoothMenuInput::RemoveDevice(a),
        },
{
    match output {
        BluetoothDeviceOutput::Connect(addr) => BluetoothMenuInput::ConnectToDevice(addr),
        BluetoothDeviceOutput::Disconnect(addr) => BluetoothMenuInput::DisconnectFromDevice(addr),
        BluetoothDeviceOutput::Pair(addr) => BluetoothMenuInput::PairDevice(addr),
        BluetoothDeviceOutput::Remove(addr) => BluetoothMenuInput::RemoveDevice(addr),
    }
}

/// What the menu does in response to the user.
#[derive(Debug)]
pub enum BluetoothMenuAction {
    /// Nothing to do.
    Nothing,
    /// Power the adapter on or off.
    SetPowered(bool),
    /// Connect to a device directly.
    Connect(Address),
    /// Disconnect from a device directly.
    Disconnect(Address),
    /// Hand a command to the Bluetooth service.
    Send(BluetoothCommand),
}

/// Decides what the menu does for the user's action, given the adapter
/// state and the pairing prompt it shows.
pub fn menu_action(
    state: &Option<BluetoothState>,
    prompt: &Option<PairingPrompt>,
    input: BluetoothMenuInput,
) -> (action: BluetoothMenuAction)
    ensures
        match input {
            BluetoothMenuInput::ToggleBluetooth(on) => if state is Some {
                action == BluetoothMenuAction::SetPowered(on)
            } else {
                action is Nothing
            },
            BluetoothMenuInput::ToggleDiscovery => if is_scanning(*state) {
                action == BluetoothMenuAction::Send(BluetoothCommand::StopDiscovery)
            } else {
                action == BluetoothMenuAction::Send(BluetoothCommand::StartDiscovery)
            },
            BluetoothMenuInput::ConnectToDevice(a) => if state is Some {
                action == BluetoothMenuAction::Connect(a)
            } else {
                action is Nothing
            },
            BluetoothMenuInput::DisconnectFromDevice(a) => if state is Some {
                action == BluetoothMenuAction::Disconnect(a)
            } else {
                action is Nothing
            },
            BluetoothMenuInput::PairDevice(a) => action == BluetoothMenuAction::Send(
                BluetoothCommand::Pair(a),
            ),
            BluetoothMenuInput::RemoveDevice(a) => action == BluetoothMenuAction::Send(
                BluetoothCommand::Remove(a),
            ),
            BluetoothMenuInput::PairingSubmit(text) => match *prompt {
                Some(p) => match p.request {
                    PairingRequest::PinCode => action == BluetoothMenuAction::Send(
                        BluetoothCommand::PairingReply(PairingReply::Text(text)),
                    ),
                    PairingRequest::Passkey => match parsed_u32(text@) {
                        Some(n) => action == BluetoothMenuAction::Send(
                            BluetoothCommand::PairingReply(PairingReply::Number(n)),
                        ),
                        None => action is Nothing,
                    },
                    _ => action is Nothing,
                },
                None => action is Nothing,
            },
            BluetoothMenuInput::PairingConfirm => action == BluetoothMenuAction::Send(
                BluetoothCommand::PairingReply(PairingReply::Confirm),
            ),
            BluetoothMenuInput::PairingCancel => action == BluetoothMenuAction::Send(
                BluetoothCommand::CancelPairing,
            ),
        },
{
    match input {
        BluetoothMenuInput::ToggleBluetooth(enabled) => {
            if state.is_some() {
                BluetoothMenuAction::SetPowered(enabled)
            } else {
                BluetoothMenuAction::Nothing
            }
        },
        BluetoothMenuInput::ToggleDiscovery => {
            let discovering = match state {
                Some(s) => s.discovering(),
                None => false,
            };
            if discovering {
                BluetoothMenuAction::Send(BluetoothCommand::StopDiscovery)
            } else {
                BluetoothMenuAction::Send(BluetoothCommand::StartDiscovery)
            }
        },
        BluetoothMenuInput::ConnectToDevice(addr) => {
            if state.is_some() {
                BluetoothMenuAction::Connect(addr)
            } else {
                BluetoothMenuAction::Nothing
            }
        },
        BluetoothMenuInput::DisconnectFromDevice(addr) => {
            if state.is_some() {
                BluetoothMenuAction::Disconnect(addr)
            } else {
                BluetoothMenuAction::Nothing
            }
        },
        BluetoothMenuInput::PairDevice(addr) => BluetoothMenuAction::Send(
            BluetoothCommand::Pair(addr),
        ),
        BluetoothMenuInput::RemoveDevice(addr) => BluetoothMenuAction::Send(
            BluetoothCommand::Remove(addr),
        ),
        BluetoothMenuInput::PairingSubmit(text) => match prompt {
            Some(p) => match &p.request {
                PairingRequest::PinCode => BluetoothMenuAction::Send(
                    BluetoothCommand::PairingReply(PairingReply::Text(text)),
                ),
                PairingRequest::Passkey => match parse_u32(text.as_str()) {
                    Some(passkey) => BluetoothMenuAction::Send(
                        BluetoothCommand::PairingReply(PairingReply::Number(passkey)),
                    ),
                    None => BluetoothMenuAction::Nothing,
                },
                _ => BluetoothMenuAction::Nothing,
            },
            None => BluetoothMenuAction::Nothing,
        },
        BluetoothMenuInput::PairingConfirm => BluetoothMenuAction::Send(
            BluetoothCommand::PairingReply(PairingReply::Confirm),
        ),
        BluetoothMenuInput::PairingCancel => BluetoothMenuAction::Send(
            BluetoothCommand::CancelPairing,
        ),
    }
}

/// The addresses of the devices in a section of the menu (paired or
/// nearby), in list order.
pub open spec fn section_of(devices: Seq<DeviceInfo>, paired: bool) -> Seq<Address>
    decreases devices.len(),
{
    if devices.len() == 0 {
        Seq::empty()
    } else {
        let rest = section_of(devices.drop_last(), paired);
        if devices.last().paired == paired {
            rest.push(devices.last().address)
        } else {
            rest
        }
    }
}

/// The addresses of the paired (or, with `paired` false, the nearby
/// unpaired) devices, in list order.
pub fn section_addresses(devices: &Vec<DeviceInfo>, paired: bool) -> (r: Vec<Address>)
    ensures
        r@ == section_of(devices@, paired),
{
    let mut r: Vec<Address> = Vec::new();
    let mut i: usize = 0;
    while i < devices.len()
        invariant
            i <= devices@.len(),
            r@ == section_of(devices@.subrange(0, i as int), paired),
        decreases devices.len() - i,
    {
        proof {
            assert(devices@.subrange(0, i + 1).drop_last() =~= devices@.subrange(0, i as int));
        }
        if devices[i].paired == paired {
            r.push(devices[i].address);
        }
        i = i + 1;
    }
    proof {
        assert(devices@.subrange(0, i as int) =~= devices@);
    }
    r
}

} // verus!
