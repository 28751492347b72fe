use cadenza_shell::battery::alerts::{AlertLevel, AlertState, alert_message};
use cadenza_shell::battery::profile::{get_slots, slot_index_for_time};
use cadenza_shell::battery::sysfs::{
    BatteryIdentity, SysfsFiles, identity_field, is_battery_type, parse_sysfs_i64,
    parse_sysfs_u64, sanitize, sysfs_values,
};
use cadenza_shell::battery::udev::{
    PowerSupplyEvent, is_battery_change, parse_charging_status, read_status_from_event,
};
use cadenza_shell::battery::{BatteryCapacity, ChargingPhase, ChargingStatus, profile_filename};

#[test]
fn capacities_convert_through_the_voltage() {
    let energy = BatteryCapacity::MicroWattHours(50_000_000);
    assert_eq!(energy.as_microampere_hours(12_000_000), 4_166_666);
    assert_eq!(energy.as_microwatt_hours(12_000_000), 50_000_000);
    assert_eq!(energy.as_microampere_hours(0), u64::MAX);
    let charge = BatteryCapacity::MicroAmpereHours(4_000_000);
    assert_eq!(charge.as_microwatt_hours(11_000_000), 44_000_000);
    assert_eq!(charge.as_microampere_hours(11_000_000), 4_000_000);
}

#[test]
fn defaults_are_unknown() {
    assert_eq!(ChargingStatus::default(), ChargingStatus::Unknown);
    assert_eq!(ChargingPhase::default(), ChargingPhase::Unknown);
}

#[test]
fn status_texts_are_parsed_after_trimming() {
    assert_eq!(parse_charging_status("Charging\n"), ChargingStatus::Charging);
    assert_eq!(parse_charging_status("  Discharging"), ChargingStatus::Discharging);
    assert_eq!(parse_charging_status("Full"), ChargingStatus::Full);
    assert_eq!(parse_charging_status("Not charging"), ChargingStatus::NotCharging);
    assert_eq!(parse_charging_status("charging"), ChargingStatus::Unknown);
    assert_eq!(parse_charging_status(""), ChargingStatus::Unknown);
}

fn event(action: Option<&str>, supply_type: Option<&str>, status: Option<&str>) -> PowerSupplyEvent {
    PowerSupplyEvent {
        action: action.map(str::to_string),
        supply_type: supply_type.map(str::to_string),
        status: status.map(str::to_string),
    }
}

#[test]
fn only_change_events_of_batteries_count() {
    assert!(is_battery_change(&event(Some("change"), Some("Battery"), None)));
    assert!(is_battery_change(&event(Some("change"), Some("BATTERY"), None)));
    assert!(!is_battery_change(&event(Some("add"), Some("Battery"), None)));
    assert!(!is_battery_change(&event(Some("change"), Some("Mains"), None)));
    assert!(!is_battery_change(&event(None, Some("Battery"), None)));
    assert!(!is_battery_change(&event(Some("change"), None, None)));
}

#[test]
fn events_carry_their_status() {
    assert_eq!(
        read_status_from_event(&event(Some("change"), None, Some("Full"))),
        Some(ChargingStatus::Full)
    );
    assert_eq!(
        read_status_from_event(&event(Some("change"), None, Some("weird"))),
        Some(ChargingStatus::Unknown)
    );
    assert_eq!(read_status_from_event(&event(Some("change"), None, None)), None);
}

fn identity(serial: Option<&str>, model: Option<&str>, maker: Option<&str>, name: &str) -> BatteryIdentity {
    BatteryIdentity {
        serial_number: serial.map(str::to_string),
        model_name: model.map(str::to_string),
        manufacturer: maker.map(str::to_string),
        sysfs_name: name.to_string(),
    }
}

#[test]
fn device_keys_prefer_the_serial_number() {
    assert_eq!(identity(Some(" 12 AB "), Some("M"), Some("X"), "BAT0").device_key(), "12_AB");
    assert_eq!(identity(Some("   "), Some("5B10 W51"), Some("LGC"), "BAT0").device_key(), "LGC_5B10_W51");
    assert_eq!(identity(None, Some("Model-1"), None, "BAT0").device_key(), "Model-1");
    assert_eq!(identity(None, None, Some("Maker"), "BAT1").device_key(), "BAT1");
    assert_eq!(identity(None, Some(" "), Some(" "), "BAT 2").device_key(), "BAT_2");
    assert_eq!(identity(None, Some(""), Some("Sony"), "BAT0").device_key(), "Sony_");
}

#[test]
fn sanitizing_keeps_letters_digits_and_dashes() {
    assert_eq!(sanitize(" a.b/c-d ü "), "a_b_c-d_ü");
}

#[test]
fn identity_files_are_trimmed_and_blank_ones_dropped() {
    assert_eq!(identity_field(Some(" SN1\n")), Some("SN1".to_string()));
    assert_eq!(identity_field(Some("  \n")), None);
    assert_eq!(identity_field(None), None);
}

#[test]
fn battery_type_files_are_recognized() {
    assert!(is_battery_type("Battery\n"));
    assert!(is_battery_type(" battery "));
    assert!(!is_battery_type("Mains"));
}

#[test]
fn sysfs_numbers_are_trimmed_before_parsing() {
    assert_eq!(parse_sysfs_u64("12000000\n"), Some(12_000_000));
    assert_eq!(parse_sysfs_i64("-1500000\n"), Some(-1_500_000));
    assert_eq!(parse_sysfs_u64("-5\n"), None);
    assert_eq!(parse_sysfs_u64("n/a"), None);
}

fn files() -> SysfsFiles {
    SysfsFiles {
        current_now: Some("-1500000\n".to_string()),
        voltage_now: Some("12000000\n".to_string()),
        charge_now: Some("3000000\n".to_string()),
        charge_full: Some("4000000\n".to_string()),
        energy_now: None,
        energy_full: None,
        status: Some("Discharging\n".to_string()),
    }
}

#[test]
fn readings_need_current_voltage_and_capacities() {
    let values = sysfs_values(&files()).unwrap();
    assert_eq!(values.voltage_now, 12_000_000);
    assert_eq!(values.current_now, -1_500_000);
    assert!(matches!(values.capacity_now, BatteryCapacity::MicroAmpereHours(3_000_000)));
    assert!(matches!(values.capacity_full, BatteryCapacity::MicroAmpereHours(4_000_000)));
    assert_eq!(values.status, ChargingStatus::Discharging);

    let mut without_voltage = files();
    without_voltage.voltage_now = None;
    assert!(sysfs_values(&without_voltage).is_none());

    let mut without_full = files();
    without_full.charge_full = Some("?".to_string());
    assert!(sysfs_values(&without_full).is_none());
}

#[test]
fn energy_is_preferred_over_charge() {
    let mut f = files();
    f.energy_now = Some("36000000".to_string());
    f.status = None;
    let values = sysfs_values(&f).unwrap();
    assert!(matches!(values.capacity_now, BatteryCapacity::MicroWattHours(36_000_000)));
    assert!(matches!(values.capacity_full, BatteryCapacity::MicroAmpereHours(4_000_000)));
    assert_eq!(values.status, ChargingStatus::Unknown);
}

#[test]
fn each_alert_fires_once_per_session() {
    let mut alerts = AlertState::new();
    assert_eq!(alerts.check(false, false), None);
    assert_eq!(alerts.check(true, false), Some(AlertLevel::Normal));
    assert_eq!(alerts.check(true, false), None);
    assert_eq!(alerts.check(true, true), Some(AlertLevel::Critical));
    assert_eq!(alerts.check(true, true), None);
    alerts.reset();
    assert_eq!(alerts.check(true, true), Some(AlertLevel::Critical));
    assert_eq!(alerts.check(true, false), None);
}

#[test]
fn alert_messages_match_their_level() {
    let critical = alert_message(AlertLevel::Critical);
    assert_eq!(critical.summary, "Battery level is critically low");
    assert_eq!(critical.sound_event, "battery-critical");
    assert_eq!(critical.urgency, 2);
    let low = alert_message(AlertLevel::Normal);
    assert_eq!(low.body, "Connect a charger to continue using your device.");
    assert_eq!(low.sound_event, "battery-low");
    assert_eq!(low.urgency, 1);
}

#[test]
fn test_slot_index_calculation() {
    // monday 00:00 -> slot 0
    assert_eq!(slot_index_for_time(0, 0, 0), 0);

    // monday 00:30 -> slot 1
    assert_eq!(slot_index_for_time(0, 0, 30), 1);

    // monday 01:00 -> slot 2
    assert_eq!(slot_index_for_time(0, 1, 0), 2);

    // monday 23:30 -> slot 47
    assert_eq!(slot_index_for_time(0, 23, 30), 47);

    // tuesday 00:00 -> slot 48
    assert_eq!(slot_index_for_time(1, 0, 0), 48);

    // sunday 23:30 -> slot 335 (last slot)
    assert_eq!(slot_index_for_time(6, 23, 30), 335);
}

#[test]
fn quarter_hour_slots_count_within_the_week() {
    assert_eq!(get_slots(0, 0, 0), (0, 0));
    assert_eq!(get_slots(59, 23, 6), (95, 671));
    assert_eq!(get_slots(15, 1, 1), (5, 101));
}

#[test]
fn charge_profiles_are_named_after_the_device_key() {
    assert_eq!(profile_filename(""), "charge_profile.json");
    assert_eq!(profile_filename("SMP_5B10W"), "charge_profile_SMP_5B10W.json");
}
