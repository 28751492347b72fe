use cadenza_shell::notifications::center::{
    NotificationCenterMsg, center_update, format_age, sort_newest_first,
};
use cadenza_shell::notifications::daemon::{
    NotificationsDaemon, NotifyRequest, get_capabilities, get_server_information,
};
use cadenza_shell::notifications::fresh::{
    FreshEffect, FreshNotificationsModel, FreshNotificationsMsg, FreshNotificationsOutput,
};
use cadenza_shell::notifications::popup::{
    NotificationPopupModel, NotificationPopupMsg, NotificationPopupOutput, PopupEffect,
};
use cadenza_shell::notifications::types::{
    Notification, NotificationUrgency, app_icon_name, pair_actions, urgency_class,
    urgency_class_of_code,
};
use cadenza_shell::notifications::{
    DbusSignal, NotificationCommand, NotificationEvent, NotificationsState, apply_command,
    clear_all, dismiss, invoke_action,
};

fn note(id: u32, timestamp: i64, urgency: NotificationUrgency) -> Notification {
    Notification {
        id,
        app_name: "app".to_string(),
        app_icon: String::new(),
        desktop_entry: "org.example.App".to_string(),
        image: String::new(),
        summary: format!("summary {id}"),
        body: String::new(),
        urgency,
        timeout: -1,
        timestamp,
        actions: Vec::new(),
    }
}

fn request(replaces_id: u32, actions: Vec<&str>, expire_timeout: i32) -> NotifyRequest {
    NotifyRequest {
        app_name: "Mail".to_string(),
        replaces_id,
        app_icon: "mail".to_string(),
        summary: "New mail".to_string(),
        body: "Hello".to_string(),
        actions: actions.into_iter().map(str::to_string).collect(),
        desktop_entry: None,
        urgency: None,
        expire_timeout,
    }
}

#[test]
fn actions_pair_identifiers_with_labels() {
    let flat: Vec<String> = ["default", "Open", "reply", "Reply", "dangling"]
        .iter()
        .map(|s| s.to_string())
        .collect();
    assert_eq!(
        pair_actions(&flat),
        vec![
            ("default".to_string(), "Open".to_string()),
            ("reply".to_string(), "Reply".to_string())
        ]
    );
}

#[test]
fn fresh_ids_count_up_and_replacements_keep_theirs() {
    let mut daemon = NotificationsDaemon::new();
    assert_eq!(daemon.notify(request(0, vec![], -1), 100).id, 1);
    assert_eq!(daemon.notify(request(0, vec![], -1), 101).id, 2);
    assert_eq!(daemon.notify(request(1, vec![], -1), 102).id, 1);
    assert_eq!(daemon.notify(request(0, vec![], -1), 103).id, 3);
    assert_eq!(daemon.notification(1).unwrap().timestamp, 102);
}

#[test]
fn notify_stores_the_notification_with_defaults() {
    let mut daemon = NotificationsDaemon::new();
    let outcome = daemon.notify(request(0, vec!["default", "Open"], 5000), 42);
    assert_eq!(outcome.expire_after_ms, Some(5000));
    let stored = daemon.notification(outcome.id).unwrap();
    assert_eq!(stored.urgency, NotificationUrgency::Normal);
    assert_eq!(stored.desktop_entry, "");
    assert_eq!(stored.actions, vec![("default".to_string(), "Open".to_string())]);
    assert_eq!(stored.summary, "New mail");
    assert_eq!(daemon.notify(request(0, vec![], 0), 43).expire_after_ms, None);
    assert_eq!(daemon.close_notification(outcome.id), 2);
    assert!(daemon.notification(outcome.id).is_none());
    daemon.clear_all();
    assert!(daemon.notification(2).is_none());
}

#[test]
fn the_daemon_describes_itself() {
    assert_eq!(get_capabilities().len(), 9);
    assert_eq!(get_capabilities()[0], "action-icons");
    assert_eq!(get_capabilities()[8], "sound");
    assert_eq!(get_server_information(), ("cadenza-shell", "municorn", "1.0.0", "1.3"));
}

#[test]
fn commands_change_the_store_and_report() {
    let mut state = NotificationsState::new();
    state.notifications.insert(4, note(4, 1, NotificationUrgency::Low));
    state.notifications.insert(5, note(5, 2, NotificationUrgency::Low));

    let effect = apply_command(&mut state, dismiss(4));
    assert!(!state.notifications.contains_key(&4));
    assert!(matches!(effect.event, NotificationEvent::Closed { id: 4, reason: 2 }));
    assert!(matches!(effect.signal, Some(DbusSignal::NotificationClosed { id: 4, reason: 2 })));

    let effect = apply_command(&mut state, invoke_action(5, "reply".to_string()));
    assert!(state.notifications.contains_key(&5));
    assert!(matches!(effect.event, NotificationEvent::ActionInvoked { id: 5, ref action_key } if action_key == "reply"));

    let effect = apply_command(&mut state, clear_all());
    assert!(state.notifications.is_empty());
    assert!(matches!(effect.event, NotificationEvent::AllCleared));
    assert!(effect.signal.is_none());
}

#[test]
fn newest_notifications_come_first_and_ties_keep_their_order() {
    let sorted = sort_newest_first(vec![
        note(1, 10, NotificationUrgency::Low),
        note(2, 30, NotificationUrgency::Low),
        note(3, 10, NotificationUrgency::Low),
        note(4, 20, NotificationUrgency::Low),
    ]);
    let ids: Vec<u32> = sorted.iter().map(|n| n.id).collect();
    assert_eq!(ids, vec![2, 4, 1, 3]);
}

#[test]
fn ages_are_shown_in_the_largest_whole_unit() {
    assert_eq!(format_age(-5), "now");
    assert_eq!(format_age(59), "now");
    assert_eq!(format_age(60), "1m");
    assert_eq!(format_age(3599), "59m");
    assert_eq!(format_age(7200), "2h");
    assert_eq!(format_age(86400 * 3 + 5), "3d");
}

#[test]
fn urgency_classes_and_codes() {
    assert_eq!(urgency_class(NotificationUrgency::Critical), "critical");
    assert_eq!(urgency_class_of_code(0), "low");
    assert_eq!(urgency_class_of_code(7), "normal");
    assert_eq!(NotificationUrgency::from_code(2), Some(NotificationUrgency::Critical));
    assert_eq!(NotificationUrgency::from_code(3), None);
    assert_eq!(NotificationUrgency::Low.code(), 0);
    assert_eq!(NotificationUrgency::default(), NotificationUrgency::Normal);
}

#[test]
fn card_icons_fall_back_to_the_desktop_entry() {
    let mut n = note(1, 0, NotificationUrgency::Low);
    assert_eq!(app_icon_name(&n, true), Some("org.example.App".to_string()));
    assert_eq!(app_icon_name(&n, false), None);
    n.app_icon = "mail".to_string();
    assert_eq!(app_icon_name(&n, false), Some("mail".to_string()));
}

#[test]
fn the_center_sends_commands_and_toggles() {
    let mut visible = false;
    assert!(center_update(&mut visible, NotificationCenterMsg::Toggle).is_none());
    assert!(visible);
    assert!(matches!(center_update(&mut visible, NotificationCenterMsg::DismissAll), Some(NotificationCommand::ClearAll)));
    assert!(matches!(center_update(&mut visible, NotificationCenterMsg::DismissNotification(3)), Some(NotificationCommand::Dismiss(3))));
    assert!(visible);
}

#[test]
fn popup_cards_stack_on_top_and_critical_ones_stay() {
    let mut popup = NotificationPopupModel::new();
    let effects = popup.update(NotificationPopupMsg::AddNotification(note(1, 5, NotificationUrgency::Normal)));
    assert!(matches!(effects.as_slice(), [PopupEffect::StartAutoDismiss(1)]));
    let effects = popup.update(NotificationPopupMsg::AddNotification(note(2, 6, NotificationUrgency::Critical)));
    assert!(effects.is_empty());
    assert_eq!(popup.shown.iter().map(|n| n.id).collect::<Vec<_>>(), vec![2, 1]);
    assert!(popup.window_visible());
    let effects = popup.update(NotificationPopupMsg::RemoveNotification(1));
    assert!(matches!(effects.as_slice(), [PopupEffect::CancelAutoDismiss(1)]));
    assert_eq!(popup.shown.len(), 1);
}

#[test]
fn popup_dismissals_and_actions_report_to_the_owner() {
    let mut popup = NotificationPopupModel::new();
    let effects = popup.update(NotificationPopupMsg::DismissNotification(9));
    assert!(matches!(
        effects.as_slice(),
        [
            PopupEffect::Send(NotificationPopupMsg::RemoveNotification(9)),
            PopupEffect::RemoveFromService(9),
            PopupEffect::Output(NotificationPopupOutput::NotificationDismissed(9)),
        ]
    ));
    let effects = popup.update(NotificationPopupMsg::NotificationAction(9, "default".to_string()));
    assert!(matches!(effects[1], PopupEffect::Output(NotificationPopupOutput::DefaultActionTriggered(9))));
    let effects = popup.update(NotificationPopupMsg::NotificationAction(9, "reply".to_string()));
    assert!(matches!(effects[1], PopupEffect::Output(NotificationPopupOutput::NotificationActionTriggered(9, _))));
}

#[test]
fn replacing_the_popup_list_sorts_and_restarts_timers() {
    let mut popup = NotificationPopupModel::new();
    let effects = popup.update(NotificationPopupMsg::UpdateNotifications(vec![
        note(1, 10, NotificationUrgency::Low),
        note(2, 20, NotificationUrgency::Critical),
        note(3, 30, NotificationUrgency::Normal),
    ]));
    assert_eq!(popup.shown.iter().map(|n| n.id).collect::<Vec<_>>(), vec![3, 2, 1]);
    assert!(matches!(
        effects.as_slice(),
        [
            PopupEffect::CancelAllAutoDismiss,
            PopupEffect::StartAutoDismiss(3),
            PopupEffect::StartAutoDismiss(1),
        ]
    ));
    let effects = popup.update(NotificationPopupMsg::CheckService(vec![note(1, 10, NotificationUrgency::Low)]));
    assert!(matches!(effects.as_slice(), [PopupEffect::Send(NotificationPopupMsg::UpdateNotifications(_))]));
}

#[test]
fn fresh_panel_cards_leave_on_their_own() {
    let mut panel = FreshNotificationsModel::new();
    let effects = panel.update(FreshNotificationsMsg::NewNotification(note(1, 1, NotificationUrgency::Low)));
    assert!(matches!(effects.as_slice(), [FreshEffect::StartAutoDismiss(1)]));
    let effects = panel.update(FreshNotificationsMsg::AutoDismiss(1));
    assert!(matches!(
        effects.as_slice(),
        [
            FreshEffect::ForgetAutoDismiss(1),
            FreshEffect::Send(FreshNotificationsMsg::RemoveNotification(1)),
            FreshEffect::Send(FreshNotificationsMsg::DismissNotification(1)),
        ]
    ));
    let effects = panel.update(FreshNotificationsMsg::DismissNotification(1));
    assert!(matches!(effects[1], FreshEffect::Output(FreshNotificationsOutput::NotificationDismissed(1))));
    panel.update(FreshNotificationsMsg::RemoveNotification(1));
    assert!(panel.shown.is_empty());
}
