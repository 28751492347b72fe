//! Battery capacity units, charging status and the decisions of the
//! battery watcher.

use vstd::prelude::*;

pub mod alerts;
pub mod profile;
pub mod sysfs;
pub mod udev;

verus! {

/// Charging status of the battery.
#[derive(Debug, Copy, Clone, PartialEq, Eq, Structural)]
pub enum ChargingStatus {
    Charging,
    Discharging,
    Full,
    NotCharging,
    Unknown,
}

impl Default for ChargingStatus {
    fn default() -> (s: Self)
        ensures
            s == ChargingStatus::Unknown,
    {
        ChargingStatus::Unknown
    }
}

/// The detected phase of a charging session.
#[derive(Debug, Clone, Copy, PartialEq, Eq, Structural)]
pub enum ChargingPhase {
    /// Phase not yet determined; waiting for enough readings.
    Unknown,
    /// Constant-current phase: the charger supplies a near-constant current
    /// while the voltage rises.
    Cc,
    /// Constant-voltage phase: the voltage is held at its maximum and the
    /// current decays as the battery approaches full.
    Cv,
}

impl Default for ChargingPhase {
    fn default() -> (p: Self)
        ensures
            p == ChargingPhase::Unknown,
    {
        ChargingPhase::Unknown
    }
}

/// A battery capacity as reported by the kernel power-supply interface.
#[derive(Clone, Copy, Debug)]
pub enum BatteryCapacity {
    /// µAh
    MicroAmpereHours(u64),
    /// µWh
    MicroWattHours(u64),
}

/// µAh value of a capacity at the given voltage (µV); `u64::MAX` when a
/// µWh capacity cannot be converted because the voltage is zero.
pub open spec fn spec_as_microampere_hours(c: BatteryCapacity, voltage: u64) -> int {
    match c {
        BatteryCapacity::MicroAmpereHours(uah) => uah as int,
        BatteryCapacity::MicroWattHours(uwh) => if voltage > 0 {
            uwh * 1_000_000 / (voltage as int)
        } else {
            u64::MAX as int
        },
    }
}

/// µWh value of a capacity at the given voltage (µV).
pub open spec fn spec_as_microwatt_hours(c: BatteryCapacity, voltage: u64) -> int {
    match c {
        BatteryCapacity::MicroAmpereHours(uah) => uah * voltage / 1_000_000,
        BatteryCapacity::MicroWattHours(uwh) => uwh as int,
    }
}

impl BatteryCapacity {
    /// The µWh-to-µAh conversion of this capacity does not overflow a `u64`.
    pub open spec fn conversion_fits(self, voltage: u64) -> bool {
        match self {
            BatteryCapacity::MicroWattHours(uwh) => voltage > 0 ==> uwh * 1_000_000 <= u64::MAX,
            BatteryCapacity::MicroAmpereHours(_) => true,
        }
    }

    /// The µAh-to-µWh conversion of this capacity does not overflow a `u64`.
    pub open spec fn energy_fits(self, voltage: u64) -> bool {
        match self {
            BatteryCapacity::MicroAmpereHours(uah) => uah * voltage <= u64::MAX,
            BatteryCapacity::MicroWattHours(_) => true,
        }
    }

    pub fn as_microampere_hours(&self, voltage: u64) -> (r: u64)
        requires
            self.conversion_fits(voltage),
        ensures
            r == spec_as_microampere_hours(*self, voltage),
    {
        match *self {
            BatteryCapacity::MicroAmpereHours(uah) => uah,
            BatteryCapacity::MicroWattHours(uwh) => {
                if voltage > 0 {
                    uwh * 1_000_000 / voltage
                } else {
                    u64::MAX
                }
            },
        }
    }

    pub fn as_microwatt_hours(&self, voltage: u64) -> (r: u64)
        requires
            self.energy_fits(voltage),
        ensures
            r == spec_as_microwatt_hours(*self, voltage),
    {
        match *self {
            BatteryCapacity::MicroAmpereHours(uah) => {
                proof {
                    assert(uah * voltage <= u64::MAX);
                }
                uah * voltage / 1_000_000
            },
            BatteryCapacity::MicroWattHours(uwh) => uwh,
        }
    }
}

/// The file name under which the learned charging parameters of a device
/// are kept: `charge_profile_<key>.json`, or `charge_profile.json` when the
/// device has no key.
pub fn profile_filename(device_key: &str) -> (name: String)
    ensures
        name@ == if device_key@.len() == 0 {
            "charge_profile.json"@
        } else {
            "charge_profile_"@ + device_key@ + ".json"@
        },
{
    proof {
        reveal_strlit("charge_profile.json");
        reveal_strlit("charge_profile_");
        reveal_strlit(".json");
    }
    if device_key.unicode_len() == 0 {
        "charge_profile.json".to_string()
    } else {
        let mut name = "charge_profile_".to_string();
        name.append(device_key);
        name.append(".json");
        name
    }
}

} // verus!
