//! Notifications: the shared store of current notifications, the commands
//! the UI sends to the notification service, and the events it broadcasts.

use std::collections::HashMap;

use vstd::prelude::*;

use crate::notifications::types::Notification;

pub mod center;
pub mod daemon;
pub mod fresh;
pub mod popup;
pub mod types;

verus! {

broadcast use vstd::std_specs::hash::group_hash_axioms;

/// The freedesktop close reason for a notification that expired.
pub const CLOSE_REASON_EXPIRED: u32 = 1;

/// The freedesktop close reason for a notification dismissed by the user.
pub const CLOSE_REASON_DISMISSED: u32 = 2;

/// Snapshot of the current notifications, by id.
#[derive(Debug)]
pub struct NotificationsState {
    pub notifications: HashMap<u32, Notification>,
}

impl NotificationsState {
    /// No notifications.
    pub fn new() -> (s: Self)
        ensures
            s.notifications@ == Map::<u32, Notification>::empty(),
    {
        NotificationsState { notifications: HashMap::new() }
    }
}

/// A discrete notification event broadcast to all subscribers.
#[derive(Debug, Clone)]
pub enum NotificationEvent {
    Received(Notification),
    Closed { id: u32, reason: u32 },
    ActionInvoked { id: u32, action_key: String },
    AllCleared,
}

/// Commands that consumers send to the notification service.
#[derive(Debug, Clone)]
pub enum NotificationCommand {
    Dismiss(u32),
    ClearAll,
    InvokeAction { id: u32, action_key: String },
}

/// Dismiss a notification by ID.
pub fn dismiss(id: u32) -> (c: NotificationCommand)
    ensures
        c == NotificationCommand::Dismiss(id),
{
    NotificationCommand::Dismiss(id)
}

/// Clear all notifications.
pub fn clear_all() -> (c: NotificationCommand)
    ensures
        c is ClearAll,
{
    NotificationCommand::ClearAll
}

/// Invoke a notification action, emitting the D-Bus `ActionInvoked` signal.
pub fn invoke_action(id: u32, action_key: String) -> (c: NotificationCommand)
    ensures
        c == (NotificationCommand::InvokeAction { id, action_key }),
{
    NotificationCommand::InvokeAction { id, action_key }
}

/// A signal the notification daemon emits on D-Bus.
#[derive(Debug, Clone)]
pub enum DbusSignal {
    NotificationClosed { id: u32, reason: u32 },
    ActionInvoked { id: u32, action_key: String },
}

/// What carrying out a command produces: the event broadcast to the
/// shell's subscribers, and the signal emitted for outside clients.
#[derive(Debug, Clone)]
pub struct CommandEffect {
    pub event: NotificationEvent,
    pub signal: Option<DbusSignal>,
}

/// Carries out a command on the notification store.
///
/// Dismissing removes the notification and reports it closed as dismissed,
/// to subscribers and on D-Bus; clearing empties the store and reports it;
/// invoking an action leaves the store as it is and reports the action,
/// to subscribers and on D-Bus.
pub fn apply_command(state: &mut NotificationsState, command: NotificationCommand) -> (effect:
    CommandEffect)
    ensures
        match command {
            NotificationCommand::Dismiss(id) => {
                &&& final(state).notifications@ == old(state).notifications@.remove(id)
                &&& effect.event == (NotificationEvent::Closed {
                    id,
                    reason: CLOSE_REASON_DISMISSED,
                })
                &&& effect.signal == Some(
                    DbusSignal::NotificationClosed { id, reason: CLOSE_REASON_DISMISSED },
                )
            },
            NotificationCommand::ClearAll => {
                &&& final(state).notifications@ == Map::<u32, Notification>::empty()
                &&& effect.event is AllCleared
                &&& effect.signal is None
            },
            NotificationCommand::InvokeAction { id, action_key } => {
                &&& final(state).notifications@ == old(state).notifications@
                &&& effect.event == (NotificationEvent::ActionInvoked { id, action_key })
                &&& effect.signal == Some(DbusSignal::ActionInvoked { id, action_key })
            },
        },
{
    match command {
        NotificationCommand::Dismiss(id) => {
            state.notifications.remove(&id);
            CommandEffect {
                event: NotificationEvent::Closed { id, reason: CLOSE_REASON_DISMISSED },
                signal: Some(DbusSignal::NotificationClosed { id, reason: CLOSE_REASON_DISMISSED }),
            }
        },
        NotificationCommand::ClearAll => {
            state.notifications.clear();
            CommandEffect { event: NotificationEvent::AllCleared, signal: None }
        },
        NotificationCommand::InvokeAction { id, action_key } => {
            let key = action_key.clone();
            CommandEffect {
                event: NotificationEvent::ActionInvoked { id, action_key: key },
                signal: Some(DbusSignal::ActionInvoked { id, action_key }),
            }
        },
    }
}

} // verus!
