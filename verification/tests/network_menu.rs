use cadenza_shell::network::commands::{
    NetworkCommand, connect, disconnect, forget, scan, set_wifi_enabled,
};
use cadenza_shell::network::events::{ConnectFailureReason, NetworkEvent};
use cadenza_shell::network::state::{AccessPointSummary, NetworkInfo, WifiScanState};
use cadenza_shell::network::types::ApSecurity;
use cadenza_shell::network_menu::{
    NetworkMenuModel, NetworkMenuMsg, PasswordPrompt, password_label, plan_ap_rows, row_status,
};
use cadenza_shell::rows::RowOp;

fn summary(ssid: &str, security: ApSecurity, active: bool, saved: Option<&str>) -> AccessPointSummary {
    AccessPointSummary {
        ssid: ssid.to_string(),
        strength: 60,
        security,
        is_active: active,
        saved_connection: saved.map(str::to_string),
    }
}

fn menu_with(aps: Vec<AccessPointSummary>) -> NetworkMenuModel {
    let mut scan_state = WifiScanState::default();
    scan_state.access_points = aps;
    NetworkMenuModel::new(NetworkInfo::default(), scan_state)
}

fn is_connect(c: &Option<NetworkCommand>, ssid: &str, password: Option<&str>) -> bool {
    match c {
        Some(NetworkCommand::Connect { ssid: s, password: p, .. }) => {
            s == ssid && p.as_deref() == password
        }
        _ => false,
    }
}

#[test]
fn clicking_a_secured_network_asks_for_its_password() {
    let mut menu = menu_with(vec![]);
    let command = menu.update(NetworkMenuMsg::ApClicked(summary("Home", ApSecurity::Psk, false, None)));
    assert!(command.is_none());
    let prompt = menu.password_prompt.as_ref().unwrap();
    assert_eq!(prompt.ssid, "Home");
    assert_eq!(password_label(prompt), "Enter password for Home");
    let command = menu.update(NetworkMenuMsg::PasswordSubmitted("hunter2".to_string()));
    assert!(is_connect(&command, "Home", Some("hunter2")));
    assert!(menu.password_prompt.is_none());
}

#[test]
fn clicking_an_open_or_saved_network_connects_at_once() {
    let mut menu = menu_with(vec![]);
    let command = menu.update(NetworkMenuMsg::ApClicked(summary("Cafe", ApSecurity::Open, false, None)));
    assert!(is_connect(&command, "Cafe", None));
    let command = menu.update(NetworkMenuMsg::ApClicked(summary("Home", ApSecurity::Psk, false, Some("/p/1"))));
    assert!(is_connect(&command, "Home", None));
    let command = menu.update(NetworkMenuMsg::ApClicked(summary("Home", ApSecurity::Psk, true, None)));
    assert!(command.is_none());
    assert!(menu.password_prompt.is_none());
}

#[test]
fn a_wrong_password_reopens_the_prompt() {
    let mut menu = menu_with(vec![summary("Home", ApSecurity::Sae, false, None)]);
    menu.update(NetworkMenuMsg::ConnectionEvent(NetworkEvent::ConnectionFailed {
        ssid: "Home".to_string(),
        reason: ConnectFailureReason::WrongPassword,
    }));
    assert_eq!(menu.connect_error.as_deref(), Some("Wrong password for Home"));
    let prompt = menu.password_prompt.as_ref().unwrap();
    assert_eq!(prompt.ssid, "Home");
    assert_eq!(prompt.security, ApSecurity::Sae);

    menu.update(NetworkMenuMsg::ConnectionEvent(NetworkEvent::ConnectionSucceeded {
        ssid: "Home".to_string(),
    }));
    assert!(menu.password_prompt.is_none());
    assert!(menu.connect_error.is_none());
}

#[test]
fn other_failures_only_show_an_error() {
    let mut menu = menu_with(vec![summary("Home", ApSecurity::Psk, false, None)]);
    menu.update(NetworkMenuMsg::ConnectionEvent(NetworkEvent::ConnectionFailed {
        ssid: "Home".to_string(),
        reason: ConnectFailureReason::Other,
    }));
    assert_eq!(menu.connect_error.as_deref(), Some("Couldn't connect to Home"));
    assert!(menu.password_prompt.is_none());
    menu.update(NetworkMenuMsg::CancelPassword);
    assert!(menu.connect_error.is_none());
}

#[test]
fn periodic_rescans_only_run_while_open() {
    let mut menu = menu_with(vec![]);
    assert!(menu.update(NetworkMenuMsg::PeriodicRescan).is_none());
    assert!(matches!(menu.update(NetworkMenuMsg::SetOpen(true)), Some(NetworkCommand::Scan)));
    assert!(matches!(menu.update(NetworkMenuMsg::PeriodicRescan), Some(NetworkCommand::Scan)));
    assert!(menu.update(NetworkMenuMsg::SetOpen(false)).is_none());
    assert!(menu.update(NetworkMenuMsg::PeriodicRescan).is_none());
}

#[test]
fn forgetting_needs_a_saved_profile() {
    let mut menu = menu_with(vec![]);
    match menu.update(NetworkMenuMsg::ForgetClicked(summary("Home", ApSecurity::Psk, false, Some("/p/9")))) {
        Some(NetworkCommand::Forget(path)) => assert_eq!(path, "/p/9"),
        other => panic!("unexpected {other:?}"),
    }
    assert!(menu.update(NetworkMenuMsg::ForgetClicked(summary("Guest", ApSecurity::Open, false, None))).is_none());
}

#[test]
fn row_status_shows_the_strongest_fact() {
    assert_eq!(row_status(&summary("a", ApSecurity::Psk, true, Some("/p"))), "Connected");
    assert_eq!(row_status(&summary("a", ApSecurity::Psk, false, Some("/p"))), "Saved");
    assert_eq!(row_status(&summary("a", ApSecurity::Wep, false, None)), "Secured");
    assert_eq!(row_status(&summary("a", ApSecurity::Open, false, None)), "");
}

#[test]
fn access_point_rows_are_matched_by_ssid() {
    let rows = vec!["Gone".to_string(), "Home".to_string()];
    let aps = vec![
        summary("New", ApSecurity::Open, false, None),
        summary("Home", ApSecurity::Psk, false, None),
    ];
    assert_eq!(
        plan_ap_rows(&rows, &aps),
        vec![RowOp::Remove(0), RowOp::Append(0), RowOp::Update { row: 0, item: 1 }]
    );
}

#[test]
fn network_command_builders_carry_their_arguments() {
    assert!(matches!(set_wifi_enabled(false), NetworkCommand::SetWifiEnabled(false)));
    assert!(matches!(scan(), NetworkCommand::Scan));
    assert!(matches!(disconnect(), NetworkCommand::Disconnect));
    assert!(matches!(forget("/x".to_string()), NetworkCommand::Forget(p) if p == "/x"));
    assert!(is_connect(&Some(connect("Net".to_string(), ApSecurity::Psk, Some("pw".to_string()))), "Net", Some("pw")));
    let _ = PasswordPrompt { ssid: "x".to_string(), security: ApSecurity::Open };
}
