//! The battery's sysfs interface: what its files hold, and the stable key of
//! a battery device.

use vstd::prelude::*;

use crate::battery::udev::{parse_charging_status, status_from_text};
use crate::battery::{BatteryCapacity, ChargingStatus};
use crate::text::{
    eq_ignore_ascii_case, equal_ignoring_ascii_case, is_alphanumeric, parse_i64, parse_u64,
    parsed_i64, parsed_u64, trim, trimmed, unicode_alphanumeric,
};

verus! {

/// `c` as it stands in a device key: kept when alphanumeric or `-`,
/// otherwise replaced by `_`.
pub open spec fn key_char(c: char) -> char {
    if unicode_alphanumeric(c) || c == '-' {
        c
    } else {
        '_'
    }
}

/// `s` trimmed, with every character that is not alphanumeric or `-`
/// replaced by `_`.
pub open spec fn sanitized(s: Seq<char>) -> Seq<char> {
    trimmed(s).map_values(|c: char| key_char(c))
}

/// Returns `s` trimmed, with every character that is not alphanumeric or
/// `-` replaced by `_`.
pub fn sanitize(s: &str) -> (r: String)
    ensures
        r@ == sanitized(s@),
{
    let t = trim(s);
    let n = t.unicode_len();
    let mut out = String::new();
    let mut i: usize = 0;
    while i < n
        invariant
            n == t@.len(),
            t@ == trimmed(s@),
            i <= n,
            out@ == t@.subrange(0, i as int).map_values(|c: char| key_char(c)),
        decreases n - i,
    {
        let c = t.get_char(i);
        proof {
            reveal_strlit("_");
            assert(t@.subrange(i as int, i + 1) =~= seq![c]);
        }
        if is_alphanumeric(c) || c == '-' {
            out.append(t.substring_char(i, i + 1));
        } else {
            out.append("_");
        }
        proof {
            assert(t@.subrange(0, i + 1).map_values(|c: char| key_char(c)) =~= t@.subrange(
                0,
                i as int,
            ).map_values(|c: char| key_char(c)).push(key_char(c)));
        }
        i = i + 1;
    }
    proof {
        assert(t@.subrange(0, n as int) =~= t@);
    }
    out
}

/// Stable identity for a battery device, used to key per-device learned
/// parameters across reboots.
#[derive(Debug, Clone)]
pub struct BatteryIdentity {
    /// Value of the sysfs `serial_number` file, if present.
    pub serial_number: Option<String>,
    /// Value of the sysfs `model_name` file, if present.
    pub model_name: Option<String>,
    /// Value of the sysfs `manufacturer` file, if present.
    pub manufacturer: Option<String>,
    /// The last component of the sysfs path (e.g. `"BAT0"`).
    pub sysfs_name: String,
}

/// The key that [`BatteryIdentity::device_key`] builds: the sanitized
/// serial number; else manufacturer and model joined by `_`, or the model
/// alone when there is no manufacturer; else the sanitized sysfs name. A
/// candidate that sanitizes to nothing is passed over.
pub open spec fn device_key_of(id: BatteryIdentity) -> Seq<char> {
    if id.serial_number is Some && sanitized(id.serial_number->0@).len() > 0 {
        sanitized(id.serial_number->0@)
    } else if id.manufacturer is Some && id.model_name is Some && sanitized(
        id.manufacturer->0@,
    ).len() + sanitized(id.model_name->0@).len() > 0 {
        sanitized(id.manufacturer->0@) + seq!['_'] + sanitized(id.model_name->0@)
    } else if id.manufacturer is None && id.model_name is Some && sanitized(
        id.model_name->0@,
    ).len() > 0 {
        sanitized(id.model_name->0@)
    } else {
        sanitized(id.sysfs_name@)
    }
}

impl BatteryIdentity {
    /// Build a stable, filename-safe key for this device.
    ///
    /// Preference order:
    /// 1. `serial_number` (most unique)
    /// 2. `manufacturer + "_" + model_name`
    /// 3. `sysfs_name` (least stable across battery replacements)
    pub fn device_key(&self) -> (key: String)
        ensures
            key@ == device_key_of(*self),
    {
        if let Some(sn) = &self.serial_number {
            let key = sanitize(sn.as_str());
            if key.as_str().unicode_len() > 0 {
                return key;
            }
        }
        match (&self.manufacturer, &self.model_name) {
            (Some(mfr), Some(mdl)) => {
                let a = sanitize(mfr.as_str());
                let b = sanitize(mdl.as_str());
                if a.as_str().unicode_len() > 0 || b.as_str().unicode_len() > 0 {
                    let mut key = a;
                    proof {
                        reveal_strlit("_");
                    }
                    key.append("_");
                    key.append(b.as_str());
                    return key;
                }
            },
            (None, Some(mdl)) => {
                let key = sanitize(mdl.as_str());
                if key.as_str().unicode_len() > 0 {
                    return key;
                }
            },
            _ => {},
        }
        sanitize(self.sysfs_name.as_str())
    }
}

/// The value a sysfs identity file contributes: its text trimmed, or
/// nothing when the file was missing or blank.
pub open spec fn identity_value(text: Option<&str>) -> Option<Seq<char>> {
    match text {
        Some(t) => if trimmed(t@).len() > 0 {
            Some(trimmed(t@))
        } else {
            None
        },
        None => None,
    }
}

/// Turns the contents of a sysfs identity file, if it could be read, into
/// the value a [`BatteryIdentity`] field holds.
pub fn identity_field(text: Option<&str>) -> (r: Option<String>)
    ensures
        r matches Some(v) ==> identity_value(text) == Some(v@),
        r is None ==> identity_value(text) is None,
{
    match text {
        Some(t) => {
            let v = trim(t);
            if v.unicode_len() > 0 {
                Some(v.to_owned())
            } else {
                None
            }
        },
        None => None,
    }
}

/// A sysfs `type` file naming a battery: `battery` in any ASCII case, once
/// trimmed.
pub open spec fn names_battery(text: Seq<char>) -> bool {
    equal_ignoring_ascii_case(trimmed(text), "battery"@)
}

/// Whether the contents of a power-supply `type` file name a battery.
pub fn is_battery_type(text: &str) -> (b: bool)
    ensures
        b == names_battery(text@),
{
    eq_ignore_ascii_case(trim(text), "battery")
}

/// Reads a sysfs number file's contents as an unsigned value.
pub fn parse_sysfs_u64(text: &str) -> (r: Option<u64>)
    ensures
        r == parsed_u64(trimmed(text@)),
{
    parse_u64(trim(text))
}

/// Reads a sysfs number file's contents as a signed value (for
/// `current_now`, which can be negative).
pub fn parse_sysfs_i64(text: &str) -> (r: Option<i64>)
    ensures
        r == parsed_i64(trimmed(text@)),
{
    parse_i64(trim(text))
}

/// The contents of the battery's sysfs files, each present when the file
/// could be read.
#[derive(Debug, Clone)]
pub struct SysfsFiles {
    pub current_now: Option<String>,
    pub voltage_now: Option<String>,
    pub charge_now: Option<String>,
    pub charge_full: Option<String>,
    pub energy_now: Option<String>,
    pub energy_full: Option<String>,
    pub status: Option<String>,
}

/// The values of one battery reading.
#[derive(Debug, Clone, Copy)]
pub struct SysfsValues {
    /// Current voltage in microvolts (µV).
    pub voltage_now: u64,
    /// Current draw in microamperes (µA).
    pub current_now: i64,
    /// Current capacity, in µWh or µAh.
    pub capacity_now: BatteryCapacity,
    /// Full charge capacity, in µWh or µAh.
    pub capacity_full: BatteryCapacity,
    /// Charging status.
    pub status: ChargingStatus,
}

/// The number a sysfs file holds, when it was read and parses.
pub open spec fn file_u64(text: Option<String>) -> Option<u64> {
    match text {
        Some(t) => parsed_u64(trimmed(t@)),
        None => None,
    }
}

/// The signed number a sysfs file holds, when it was read and parses.
pub open spec fn file_i64(text: Option<String>) -> Option<i64> {
    match text {
        Some(t) => parsed_i64(trimmed(t@)),
        None => None,
    }
}

/// A capacity: energy (µWh) is preferred over charge (µAh).
pub open spec fn preferred_capacity(energy: Option<u64>, charge: Option<u64>) -> Option<
    BatteryCapacity,
> {
    match energy {
        Some(e) => Some(BatteryCapacity::MicroWattHours(e)),
        None => match charge {
            Some(c) => Some(BatteryCapacity::MicroAmpereHours(c)),
            None => None,
        },
    }
}

/// The reading the files make: none without a current, a voltage, a
/// present capacity and a full capacity; the status is `Unknown` when its
/// file could not be read.
pub open spec fn values_of(files: SysfsFiles) -> Option<SysfsValues> {
    let current = file_i64(files.current_now);
    let voltage = file_u64(files.voltage_now);
    let now = preferred_capacity(file_u64(files.energy_now), file_u64(files.charge_now));
    let full = preferred_capacity(file_u64(files.energy_full), file_u64(files.charge_full));
    if current is Some && voltage is Some && now is Some && full is Some {
        Some(
            SysfsValues {
                voltage_now: voltage->0,
                current_now: current->0,
                capacity_now: now->0,
                capacity_full: full->0,
                status: match files.status {
                    Some(s) => status_from_text(s@),
                    None => ChargingStatus::Unknown,
                },
            },
        )
    } else {
        None
    }
}

/// A reading exists exactly when the current and voltage files parse and
/// each capacity can be read from its energy file or its charge file. The
/// energy files are preferred: a capacity is the energy value in µWh when
/// that file parses, and the charge value in µAh only when it does not;
/// current and voltage are the files' values.
pub proof fn lemma_reading_prefers_energy(files: SysfsFiles)
    ensures
        values_of(files) is Some <==> (file_i64(files.current_now) is Some && file_u64(
            files.voltage_now,
        ) is Some && (file_u64(files.energy_now) is Some || file_u64(files.charge_now) is Some)
            && (file_u64(files.energy_full) is Some || file_u64(files.charge_full) is Some)),
        values_of(files) matches Some(v) ==> {
            &&& Some(v.current_now) == file_i64(files.current_now)
            &&& Some(v.voltage_now) == file_u64(files.voltage_now)
            &&& v.capacity_now == match file_u64(files.energy_now) {
                Some(e) => BatteryCapacity::MicroWattHours(e),
                None => BatteryCapacity::MicroAmpereHours(file_u64(files.charge_now)->0),
            }
            &&& v.capacity_full == match file_u64(files.energy_full) {
                Some(e) => BatteryCapacity::MicroWattHours(e),
                None => BatteryCapacity::MicroAmpereHours(file_u64(files.charge_full)->0),
            }
        },
{
}

fn read_u64(text: &Option<String>) -> (r: Option<u64>)
    ensures
        r == file_u64(*text),
{
    match text {
        Some(t) => parse_sysfs_u64(t.as_str()),
        None => None,
    }
}

fn capacity(energy: &Option<String>, charge: &Option<String>) -> (r: Option<BatteryCapacity>)
    ensures
        r == preferred_capacity(file_u64(*energy), file_u64(*charge)),
{
    match read_u64(energy) {
        Some(e) => Some(BatteryCapacity::MicroWattHours(e)),
        None => match read_u64(charge) {
            Some(c) => Some(BatteryCapacity::MicroAmpereHours(c)),
            None => None,
        },
    }
}

/// The battery reading that the sysfs files describe.
///
/// Returns `None` if `current_now` or `voltage_now` are unavailable, as these
/// are critical for power calculation, or if no capacity can be read.
pub fn sysfs_values(files: &SysfsFiles) -> (r: Option<SysfsValues>)
    ensures
        r == values_of(*files),
{
    let current_now = match &files.current_now {
        Some(t) => parse_sysfs_i64(t.as_str()),
        None => None,
    };
    let current_now = match current_now {
        Some(c) => c,
        None => return None,
    };
    let voltage_now = match read_u64(&files.voltage_now) {
        Some(v) => v,
        None => return None,
    };
    let status = match &files.status {
        Some(s) => parse_charging_status(s.as_str()),
        None => ChargingStatus::Unknown,
    };
    let capacity_now = match capacity(&files.energy_now, &files.charge_now) {
        Some(c) => c,
        None => return None,
    };
    let capacity_full = match capacity(&files.energy_full, &files.charge_full) {
        Some(c) => c,
        None => return None,
    };
    Some(SysfsValues { voltage_now, current_now, capacity_now, capacity_full, status })
}

} // verus!
