use cadenza_shell::bluetooth::agent::{
    PairingReply, PairingSlot, confirmation_reply, passkey_reply, pin_code_reply,
};
use cadenza_shell::bluetooth::commands::{
    BluetoothCommand, cancel_pairing, pair, pairing_reply, remove, set_trusted, start_discovery,
    stop_discovery,
};
use cadenza_shell::bluetooth::service::{
    AdapterEvent, AdapterProperty, BluetoothEvent, DeviceEvent, EventHandling, handling_of,
    update_from_event,
};
use cadenza_shell::bluetooth::state::{
    BluetoothState, DeviceInfo, DeviceProperty, PairingPrompt, PairingRequest,
};
use cadenza_shell::bluetooth_menu::{
    BluetoothDeviceOutput, BluetoothMenuAction, BluetoothMenuInput, get_icon, get_status_text,
    menu_action, prompt_view, scan_button_label, section_addresses, toggle_output,
};
use cadenza_shell::icons::{BLUETOOTH, BLUETOOTH_DOTS, BLUETOOTH_NO, BLUETOOTH_X};

fn device(address: u64, paired: bool, connected: bool) -> DeviceInfo {
    DeviceInfo {
        address,
        alias: format!("device {address}"),
        icon: None,
        paired,
        trusted: false,
        connected,
        rssi: None,
        battery_percentage: None,
    }
}

fn find(state: &BluetoothState, address: u64) -> Option<&DeviceInfo> {
    state.devices().iter().find(|d| d.address == address)
}

#[test]
fn a_later_snapshot_of_an_address_replaces_the_earlier() {
    let state = BluetoothState::new(
        true,
        false,
        vec![device(1, true, false), device(2, false, false), device(1, true, true)],
    );
    assert_eq!(state.devices().len(), 2);
    assert!(find(&state, 1).unwrap().connected);
    assert!(state.powered());
    assert!(!state.discovering());
}

#[test]
fn connected_devices_are_counted_once_each() {
    let mut state = BluetoothState::new(true, false, vec![device(1, true, true), device(2, true, false)]);
    assert_eq!(state.connected_device_count(), 1);
    state.insert_device(device(1, true, true));
    assert_eq!(state.connected_device_count(), 1);
    state.insert_device(device(3, true, true));
    assert_eq!(state.connected_device_count(), 2);
    state.remove_device(1);
    assert_eq!(state.connected_device_count(), 1);
    assert!(find(&state, 1).is_none());
}

#[test]
fn property_changes_update_only_tracked_devices() {
    let mut state = BluetoothState::new(true, false, vec![device(7, true, false)]);
    update_from_event(
        &mut state,
        BluetoothEvent::Device(7, DeviceEvent::PropertyChanged(DeviceProperty::Connected(true))),
    );
    assert!(find(&state, 7).unwrap().connected);
    update_from_event(
        &mut state,
        BluetoothEvent::Device(7, DeviceEvent::PropertyChanged(DeviceProperty::Alias("Phone".to_string()))),
    );
    assert_eq!(find(&state, 7).unwrap().alias, "Phone");
    update_from_event(
        &mut state,
        BluetoothEvent::Device(7, DeviceEvent::PropertyChanged(DeviceProperty::BatteryPercentage(80))),
    );
    assert_eq!(find(&state, 7).unwrap().battery_percentage, Some(80));
    update_from_event(
        &mut state,
        BluetoothEvent::Device(9, DeviceEvent::PropertyChanged(DeviceProperty::Connected(true))),
    );
    assert!(find(&state, 9).is_none());
    assert_eq!(state.devices().len(), 1);
}

#[test]
fn adapter_events_update_the_flags_and_drop_devices() {
    let mut state = BluetoothState::new(false, false, vec![device(1, true, false)]);
    update_from_event(&mut state, BluetoothEvent::Adapter(AdapterEvent::PropertyChanged(AdapterProperty::Powered(true))));
    update_from_event(&mut state, BluetoothEvent::Adapter(AdapterEvent::PropertyChanged(AdapterProperty::Discovering(true))));
    assert!(state.powered());
    assert!(state.discovering());
    update_from_event(&mut state, BluetoothEvent::Adapter(AdapterEvent::DeviceRemoved(1)));
    assert_eq!(state.devices().len(), 0);
    update_from_event(&mut state, BluetoothEvent::Wake);
    assert!(state.powered());
}

#[test]
fn events_are_routed_by_kind() {
    assert_eq!(handling_of(&BluetoothEvent::Wake), EventHandling::RefreshAfterWake);
    assert_eq!(
        handling_of(&BluetoothEvent::Adapter(AdapterEvent::DeviceAdded(4))),
        EventHandling::AddDevice(4)
    );
    assert_eq!(
        handling_of(&BluetoothEvent::Adapter(AdapterEvent::DeviceRemoved(4))),
        EventHandling::DropDevice(4)
    );
    assert_eq!(
        handling_of(&BluetoothEvent::Adapter(AdapterEvent::PropertyChanged(AdapterProperty::Other))),
        EventHandling::ApplyNow
    );
}

#[test]
fn the_icon_follows_power_discovery_and_connections() {
    assert_eq!(get_icon(&None), BLUETOOTH_NO);
    assert_eq!(get_icon(&Some(BluetoothState::new(false, false, vec![]))), BLUETOOTH_NO);
    assert_eq!(get_icon(&Some(BluetoothState::new(true, true, vec![]))), BLUETOOTH_DOTS);
    assert_eq!(get_icon(&Some(BluetoothState::new(true, false, vec![device(1, true, true)]))), BLUETOOTH);
    assert_eq!(get_icon(&Some(BluetoothState::new(true, false, vec![device(1, true, false)]))), BLUETOOTH_X);
}

#[test]
fn the_status_line_counts_connected_devices() {
    assert_eq!(get_status_text(&None), "Bluetooth unavailable");
    assert_eq!(get_status_text(&Some(BluetoothState::new(false, true, vec![]))), "Bluetooth disabled");
    assert_eq!(get_status_text(&Some(BluetoothState::new(true, true, vec![]))), "Searching for devices...");
    assert_eq!(
        get_status_text(&Some(BluetoothState::new(true, false, vec![device(1, true, true)]))),
        "1 device connected"
    );
    assert_eq!(
        get_status_text(&Some(BluetoothState::new(
            true,
            false,
            vec![device(1, true, true), device(2, true, true), device(3, false, false)]
        ))),
        "2 device(s) connected"
    );
    assert_eq!(get_status_text(&Some(BluetoothState::new(true, false, vec![]))), "Bluetooth enabled");
}

#[test]
fn the_scan_button_stops_a_running_scan() {
    assert_eq!(scan_button_label(&Some(BluetoothState::new(true, true, vec![]))), "Stop scanning");
    assert_eq!(scan_button_label(&None), "Scan for devices");
}

#[test]
fn prompts_show_codes_padded_to_six_digits() {
    let prompt = |request| PairingPrompt { address: 1, request };
    let v = prompt_view(&prompt(PairingRequest::ConfirmPasskey(4321)), "AA:BB");
    assert_eq!(v.label, "Does AA:BB show the passkey 004321?");
    assert!(!v.show_entry && v.show_buttons);
    let v = prompt_view(&prompt(PairingRequest::DisplayPasskey { passkey: 12, entered: 3 }), "AA:BB");
    assert_eq!(v.label, "Passkey for AA:BB: 000012 (3 digit(s) entered)");
    assert!(!v.show_entry && !v.show_buttons);
    let v = prompt_view(&prompt(PairingRequest::PinCode), "AA:BB");
    assert_eq!(v.label, "Enter the PIN code for AA:BB");
    assert!(v.show_entry && v.show_buttons);
    let v = prompt_view(&prompt(PairingRequest::DisplayPinCode("0000".to_string())), "AA:BB");
    assert_eq!(v.label, "PIN code for AA:BB: 0000");
    let v = prompt_view(&prompt(PairingRequest::Authorize), "AA:BB");
    assert_eq!(v.label, "Allow pairing with AA:BB?");
    let v = prompt_view(&prompt(PairingRequest::Passkey), "AA:BB");
    assert_eq!(v.label, "Enter the passkey for AA:BB");
}

#[test]
fn clicking_a_device_pairs_connects_or_disconnects() {
    assert_eq!(toggle_output(&device(5, false, false)), BluetoothDeviceOutput::Pair(5));
    assert_eq!(toggle_output(&device(5, true, true)), BluetoothDeviceOutput::Disconnect(5));
    assert_eq!(toggle_output(&device(5, true, false)), BluetoothDeviceOutput::Connect(5));
}

#[test]
fn submitted_codes_answer_the_prompt_they_were_typed_for() {
    let state = Some(BluetoothState::new(true, false, vec![]));
    let passkey = Some(PairingPrompt { address: 1, request: PairingRequest::Passkey });
    match menu_action(&state, &passkey, BluetoothMenuInput::PairingSubmit("123456".to_string())) {
        BluetoothMenuAction::Send(BluetoothCommand::PairingReply(PairingReply::Number(n))) => assert_eq!(n, 123456),
        other => panic!("unexpected {other:?}"),
    }
    assert!(matches!(
        menu_action(&state, &passkey, BluetoothMenuInput::PairingSubmit("12x".to_string())),
        BluetoothMenuAction::Nothing
    ));
    let pin = Some(PairingPrompt { address: 1, request: PairingRequest::PinCode });
    match menu_action(&state, &pin, BluetoothMenuInput::PairingSubmit("0000".to_string())) {
        BluetoothMenuAction::Send(BluetoothCommand::PairingReply(PairingReply::Text(t))) => assert_eq!(t, "0000"),
        other => panic!("unexpected {other:?}"),
    }
    assert!(matches!(
        menu_action(&state, &None, BluetoothMenuInput::PairingSubmit("0000".to_string())),
        BluetoothMenuAction::Nothing
    ));
}

#[test]
fn menu_actions_need_an_adapter_for_direct_calls() {
    assert!(matches!(menu_action(&None, &None, BluetoothMenuInput::ToggleBluetooth(true)), BluetoothMenuAction::Nothing));
    assert!(matches!(menu_action(&None, &None, BluetoothMenuInput::ConnectToDevice(2)), BluetoothMenuAction::Nothing));
    let state = Some(BluetoothState::new(true, true, vec![]));
    assert!(matches!(menu_action(&state, &None, BluetoothMenuInput::ToggleBluetooth(false)), BluetoothMenuAction::SetPowered(false)));
    assert!(matches!(menu_action(&state, &None, BluetoothMenuInput::ToggleDiscovery), BluetoothMenuAction::Send(BluetoothCommand::StopDiscovery)));
    assert!(matches!(menu_action(&None, &None, BluetoothMenuInput::ToggleDiscovery), BluetoothMenuAction::Send(BluetoothCommand::StartDiscovery)));
    assert!(matches!(menu_action(&None, &None, BluetoothMenuInput::RemoveDevice(3)), BluetoothMenuAction::Send(BluetoothCommand::Remove(3))));
    assert!(matches!(menu_action(&None, &None, BluetoothMenuInput::PairingCancel), BluetoothMenuAction::Send(BluetoothCommand::CancelPairing)));
}

#[test]
fn devices_split_into_paired_and_nearby() {
    let devices = vec![device(1, true, false), device(2, false, false), device(3, true, true)];
    assert_eq!(section_addresses(&devices, true), vec![1, 3]);
    assert_eq!(section_addresses(&devices, false), vec![2]);
}

#[test]
fn command_builders_name_their_command() {
    assert!(matches!(start_discovery(), BluetoothCommand::StartDiscovery));
    assert!(matches!(stop_discovery(), BluetoothCommand::StopDiscovery));
    assert!(matches!(pair(9), BluetoothCommand::Pair(9)));
    assert!(matches!(set_trusted(9, true), BluetoothCommand::SetTrusted(9, true)));
    assert!(matches!(remove(9), BluetoothCommand::Remove(9)));
    assert!(matches!(pairing_reply(PairingReply::Confirm), BluetoothCommand::PairingReply(PairingReply::Confirm)));
    assert!(matches!(cancel_pairing(), BluetoothCommand::CancelPairing));
}

#[test]
fn replies_of_the_wrong_kind_are_rejections() {
    assert_eq!(pin_code_reply(Some(PairingReply::Text("1234".to_string()))), Some("1234".to_string()));
    assert_eq!(pin_code_reply(Some(PairingReply::Confirm)), None);
    assert_eq!(pin_code_reply(None), None);
    assert_eq!(passkey_reply(Some(PairingReply::Number(42))), Some(42));
    assert_eq!(passkey_reply(Some(PairingReply::Text("42".to_string()))), None);
    assert!(confirmation_reply(Some(PairingReply::Confirm)));
    assert!(!confirmation_reply(Some(PairingReply::Number(1))));
    assert!(!confirmation_reply(None));
}

#[test]
fn a_prompt_is_answered_once_and_cancel_clears_it() {
    let mut slot: PairingSlot<u8> = PairingSlot::new();
    assert_eq!(slot.respond(), None);
    slot.ask(7, PairingPrompt { address: 1, request: PairingRequest::Passkey });
    assert_eq!(slot.respond(), Some(7));
    assert_eq!(slot.respond(), None);
    slot.ask(8, PairingPrompt { address: 2, request: PairingRequest::Authorize });
    assert_eq!(slot.cancel(), Some(8));
    assert_eq!(slot.respond(), None);
}
