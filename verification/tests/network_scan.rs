use cadenza_shell::network::scan::{RawApReading, SavedConnection, dedupe_and_sort, ssid_from_bytes};
use cadenza_shell::network::types::ApSecurity;

fn reading(ssid: &str, strength: u8) -> RawApReading {
    RawApReading {
        ssid: ssid.to_string(),
        strength,
        security: ApSecurity::Psk,
    }
}

#[test]
fn keeps_the_strongest_reading_per_ssid() {
    let readings = vec![reading("Home", 40), reading("Home", 90), reading("Home", 60)];

    let summaries = dedupe_and_sort(readings, None, &Vec::new());

    assert_eq!(summaries.len(), 1);
    assert_eq!(summaries[0].strength, 90);
}

#[test]
fn sorts_active_connection_first_regardless_of_strength() {
    let readings = vec![reading("Strong", 100), reading("ActiveButWeak", 10)];

    let summaries = dedupe_and_sort(readings, Some("ActiveButWeak"), &Vec::new());

    assert_eq!(summaries[0].ssid, "ActiveButWeak");
    assert!(summaries[0].is_active);
    assert_eq!(summaries[1].ssid, "Strong");
    assert!(!summaries[1].is_active);
}

#[test]
fn sorts_remaining_networks_by_descending_strength() {
    let readings = vec![reading("Weak", 20), reading("Strongest", 90), reading("Mid", 50)];

    let summaries = dedupe_and_sort(readings, None, &Vec::new());

    let ssids: Vec<&str> = summaries.iter().map(|s| s.ssid.as_str()).collect();
    assert_eq!(ssids, vec!["Strongest", "Mid", "Weak"]);
}

#[test]
fn marks_saved_networks() {
    let path = "/org/freedesktop/NetworkManager/Settings/1".to_string();
    let saved = vec![SavedConnection {
        ssid: "Home".to_string(),
        path: path.clone(),
    }];

    let readings = vec![reading("Home", 80), reading("Guest", 60)];
    let summaries = dedupe_and_sort(readings, None, &saved);

    let home = summaries.iter().find(|s| s.ssid == "Home").unwrap();
    let guest = summaries.iter().find(|s| s.ssid == "Guest").unwrap();
    assert!(home.is_saved());
    assert_eq!(home.saved_connection, Some(path));
    assert!(!guest.is_saved());
}

#[test]
fn equally_strong_networks_keep_their_scan_order() {
    let readings = vec![reading("B", 50), reading("A", 50), reading("C", 70)];
    let summaries = dedupe_and_sort(readings, None, &Vec::new());
    let ssids: Vec<&str> = summaries.iter().map(|s| s.ssid.as_str()).collect();
    assert_eq!(ssids, vec!["C", "B", "A"]);
}

#[test]
fn empty_or_blank_ssids_are_not_usable() {
    assert_eq!(ssid_from_bytes(b""), None);
    assert_eq!(ssid_from_bytes(b"  \t"), None);
    assert_eq!(ssid_from_bytes(b"Cafe"), Some("Cafe".to_string()));
    assert_eq!(ssid_from_bytes(b" Cafe "), Some(" Cafe ".to_string()));
    assert_eq!(ssid_from_bytes(&[0x48, 0x69, 0xff]), Some("Hi\u{fffd}".to_string()));
}
