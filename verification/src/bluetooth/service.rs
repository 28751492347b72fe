//! How the Bluetooth service applies adapter and device events to its
//! state.

use vstd::prelude::*;

use crate::bluetooth::state::{Address, BluetoothState, DeviceProperty, with_property};

verus! {

/// A property of the adapter that changed.
#[derive(Debug, Clone, Copy)]
pub enum AdapterProperty {
    Powered(bool),
    Discovering(bool),
    /// A property the shell does not track.
    Other,
}

/// An event of the adapter.
#[derive(Debug, Clone, Copy)]
pub enum AdapterEvent {
    DeviceAdded(Address),
    DeviceRemoved(Address),
    PropertyChanged(AdapterProperty),
}

/// An event of a remote device.
#[derive(Debug)]
pub enum DeviceEvent {
    PropertyChanged(DeviceProperty),
}

/// An event the Bluetooth service reacts to.
#[derive(Debug)]
pub enum BluetoothEvent {
    Adapter(AdapterEvent),
    Device(Address, DeviceEvent),
    /// The system has just woken from sleep; triggers a full state refresh.
    Wake,
}

/// What the service does with an event.
#[derive(Debug, Clone, Copy, PartialEq, Eq, Structural)]
pub enum EventHandling {
    /// Re-poll the adapter and every device, since events may have been
    /// missed during sleep.
    RefreshAfterWake,
    /// Fetch the new device's properties, record them and subscribe to its
    /// changes.
    AddDevice(Address),
    /// Stop following the device's changes, then apply the event.
    DropDevice(Address),
    /// Apply the event to the state at once.
    ApplyNow,
}

/// The handling each event gets.
pub open spec fn handling_for(event: BluetoothEvent) -> EventHandling {
    match event {
        BluetoothEvent::Wake => EventHandling::RefreshAfterWake,
        BluetoothEvent::Adapter(AdapterEvent::DeviceAdded(a)) => EventHandling::AddDevice(a),
        BluetoothEvent::Adapter(AdapterEvent::DeviceRemoved(a)) => EventHandling::DropDevice(a),
        _ => EventHandling::ApplyNow,
    }
}

/// Decides how the service handles an event: a wake and a new device need
/// asynchronous work first; everything else is applied to the state.
pub fn handling_of(event: &BluetoothEvent) -> (h: EventHandling)
    ensures
        h == handling_for(*event),
{
    match event {
        BluetoothEvent::Wake => EventHandling::RefreshAfterWake,
        BluetoothEvent::Adapter(AdapterEvent::DeviceAdded(a)) => EventHandling::AddDevice(*a),
        BluetoothEvent::Adapter(AdapterEvent::DeviceRemoved(a)) => EventHandling::DropDevice(*a),
        _ => EventHandling::ApplyNow,
    }
}

/// Applies a Bluetooth event to the state.
///
/// Handles everything but a newly added device, which needs an
/// asynchronous property fetch before it can be recorded (see
/// [`BluetoothState::insert_device`]). A wake changes nothing here; a
/// property change of an untracked device is ignored.
pub fn update_from_event(state: &mut BluetoothState, input: BluetoothEvent)
    requires
        !(input matches BluetoothEvent::Adapter(AdapterEvent::DeviceAdded(_))),
    ensures
        final(state).device_map() == match input {
            BluetoothEvent::Adapter(AdapterEvent::DeviceRemoved(a)) => old(
                state,
            ).device_map().remove(a),
            BluetoothEvent::Device(a, DeviceEvent::PropertyChanged(p)) => if old(
                state,
            ).device_map().dom().contains(a) {
                old(state).device_map().insert(a, with_property(old(state).device_map()[a], p))
            } else {
                old(state).device_map()
            },
            _ => old(state).device_map(),
        },
        final(state).is_powered() == match input {
            BluetoothEvent::Adapter(AdapterEvent::PropertyChanged(AdapterProperty::Powered(p))) => p,
            _ => old(state).is_powered(),
        },
        final(state).is_discovering() == match input {
            BluetoothEvent::Adapter(
                AdapterEvent::PropertyChanged(AdapterProperty::Discovering(d)),
            ) => d,
            _ => old(state).is_discovering(),
        },
{
    match input {
        BluetoothEvent::Adapter(adapter_event) => match adapter_event {
            AdapterEvent::DeviceAdded(_) => {},
            AdapterEvent::DeviceRemoved(address) => {
                state.remove_device(address);
            },
            AdapterEvent::PropertyChanged(adapter_property) => match adapter_property {
                AdapterProperty::Powered(p) => state.set_powered(p),
                AdapterProperty::Discovering(d) => state.set_discovering(d),
                AdapterProperty::Other => {},
            },
        },
        BluetoothEvent::Wake => {},
        BluetoothEvent::Device(address, DeviceEvent::PropertyChanged(property)) => {
            state.apply_device_property(address, property);
        },
    }
}

} // verus!
