use cadenza_shell::dispatch::CommandChannel;
use cadenza_shell::notifications::types::{Notification, NotificationUrgency};
use cadenza_shell::notifications::{NotificationCommand, NotificationEvent};
use cadenza_shell::shell::{
    FreshPanelInput, ShellEffect, ShellLayout, fresh_panel_command, fresh_panel_input,
    splice_connectors,
};

fn names(effects: &[ShellEffect]) -> Vec<String> {
    effects
        .iter()
        .map(|e| match e {
            ShellEffect::DropBar(c) => format!("drop bar {c}"),
            ShellEffect::CreateBar(c) => format!("bar {c}"),
            ShellEffect::CreateFreshPanel(c) => format!("panel {c}"),
            ShellEffect::DropFreshPanel => "drop panel".to_string(),
        })
        .collect()
}

#[test]
fn the_first_monitor_gets_the_fresh_panel() {
    let mut layout = ShellLayout::new();
    assert_eq!(names(&layout.monitor_added("DP-1".to_string())), vec!["bar DP-1", "panel DP-1"]);
    assert_eq!(names(&layout.monitor_added("HDMI-1".to_string())), vec!["bar HDMI-1"]);
    assert_eq!(
        names(&layout.monitor_added("DP-1".to_string())),
        vec!["drop bar DP-1", "bar DP-1"]
    );
    assert_eq!(layout.bar_connectors().len(), 2);
}

#[test]
fn removing_the_panel_monitor_drops_the_panel_until_the_next_monitor() {
    let mut layout = ShellLayout::new();
    layout.monitor_added("DP-1".to_string());
    layout.monitor_added("HDMI-1".to_string());
    assert!(!layout.monitor_removed("HDMI-1"));
    assert!(layout.monitor_removed("DP-1"));
    assert!(!layout.monitor_removed("DP-1"));
    assert!(layout.bar_connectors().is_empty());
    assert_eq!(names(&layout.monitor_added("eDP-1".to_string())), vec!["bar eDP-1", "panel eDP-1"]);
}

#[test]
fn notification_events_reach_the_fresh_panel() {
    let n = Notification {
        id: 3,
        app_name: String::new(),
        app_icon: String::new(),
        desktop_entry: String::new(),
        image: String::new(),
        summary: String::new(),
        body: String::new(),
        urgency: NotificationUrgency::Normal,
        timeout: 0,
        timestamp: 0,
        actions: Vec::new(),
    };
    assert!(matches!(fresh_panel_input(true, NotificationEvent::Received(n.clone())), Some(FreshPanelInput::NewNotification(ref m)) if m.id == 3));
    assert!(fresh_panel_input(false, NotificationEvent::Received(n)).is_none());
    assert!(matches!(fresh_panel_input(true, NotificationEvent::Closed { id: 3, reason: 1 }), Some(FreshPanelInput::RemoveNotification(3))));
    assert!(fresh_panel_input(true, NotificationEvent::AllCleared).is_none());
    assert!(matches!(fresh_panel_command(Some(3), None), Some(NotificationCommand::Dismiss(3))));
    assert!(matches!(fresh_panel_command(None, Some((3, "go".to_string()))), Some(NotificationCommand::InvokeAction { id: 3, .. })));
}

#[test]
fn hotplug_changes_are_spliced_into_the_connector_list() {
    let mut known: Vec<String> = ["A", "B", "C"].iter().map(|s| s.to_string()).collect();
    let left = splice_connectors(&mut known, 1, 1, vec!["X".to_string(), "Y".to_string()]);
    assert_eq!(left, vec!["B".to_string()]);
    assert_eq!(known, vec!["A", "X", "Y", "C"]);
    let left = splice_connectors(&mut known, 4, 0, vec!["Z".to_string()]);
    assert!(left.is_empty());
    assert_eq!(known, vec!["A", "X", "Y", "C", "Z"]);
}

#[test]
fn the_first_installed_sender_stays() {
    let mut channel: CommandChannel<u8> = CommandChannel::new();
    assert!(channel.target().is_none());
    assert_eq!(channel.install(1), Ok(()));
    assert_eq!(channel.install(2), Err(2));
    assert_eq!(channel.target(), Some(&1));
}
