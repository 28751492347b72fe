//! Reading `power_supply` udev events: which ones concern the battery, and
//! the charging status they carry.

use vstd::prelude::*;

use crate::battery::ChargingStatus;
use crate::text::{eq_ignore_ascii_case, equal_ignoring_ascii_case, same_text, trim, trimmed};

verus! {

/// What the battery watcher reads of a udev `power_supply` event: its
/// action, its `POWER_SUPPLY_TYPE` and its `POWER_SUPPLY_STATUS`, each
/// present only when the event carries it as valid UTF-8.
#[derive(Debug, Clone)]
pub struct PowerSupplyEvent {
    pub action: Option<String>,
    pub supply_type: Option<String>,
    pub status: Option<String>,
}

/// The charging status a status text names, once trimmed; any other text
/// is `Unknown`.
pub open spec fn status_from_text(raw: Seq<char>) -> ChargingStatus {
    let t = trimmed(raw);
    if t == "Charging"@ {
        ChargingStatus::Charging
    } else if t == "Discharging"@ {
        ChargingStatus::Discharging
    } else if t == "Full"@ {
        ChargingStatus::Full
    } else if t == "Not charging"@ {
        ChargingStatus::NotCharging
    } else {
        ChargingStatus::Unknown
    }
}

/// The event is a `change` of a device whose type is `battery`, in any
/// ASCII case.
pub open spec fn battery_change(event: PowerSupplyEvent) -> bool {
    &&& event.action matches Some(a) && a@ == "change"@
    &&& event.supply_type matches Some(t) && equal_ignoring_ascii_case(t@, "battery"@)
}

/// Returns true if the event is a `change` action on a battery device.
pub fn is_battery_change(event: &PowerSupplyEvent) -> (b: bool)
    ensures
        b == battery_change(*event),
{
    let is_change = match &event.action {
        Some(a) => same_text(a.as_str(), "change"),
        None => false,
    };
    let is_battery = match &event.supply_type {
        Some(t) => eq_ignore_ascii_case(t.as_str(), "battery"),
        None => false,
    };
    is_change && is_battery
}

/// Reads the charging status from the event's `POWER_SUPPLY_STATUS`.
pub fn read_status_from_event(event: &PowerSupplyEvent) -> (r: Option<ChargingStatus>)
    ensures
        r == match event.status {
            Some(s) => Some(status_from_text(s@)),
            None => None,
        },
{
    match &event.status {
        Some(s) => Some(parse_charging_status(s.as_str())),
        None => None,
    }
}

/// Parses a charging status string into a [`ChargingStatus`] variant.
pub fn parse_charging_status(value: &str) -> (s: ChargingStatus)
    ensures
        s == status_from_text(value@),
{
    let t = trim(value);
    if same_text(t, "Charging") {
        ChargingStatus::Charging
    } else if same_text(t, "Discharging") {
        ChargingStatus::Discharging
    } else if same_text(t, "Full") {
        ChargingStatus::Full
    } else if same_text(t, "Not charging") {
        ChargingStatus::NotCharging
    } else {
        ChargingStatus::Unknown
    }
}

} // verus!
