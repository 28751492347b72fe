//! The panel of fresh notifications: new ones appear on top and leave on
//! their own after a while, unless they are critical.

use vstd::prelude::*;

use crate::notifications::popup::{find_card, without_card};
use crate::notifications::types::{Notification, NotificationUrgency};

verus! {

/// What reaches the fresh-notification panel.
#[derive(Debug)]
pub enum FreshNotificationsMsg {
    NewNotification(Notification),
    RemoveNotification(u32),
    /// A notification's auto-dismiss delay ran out.
    AutoDismiss(u32),
    /// The action with this key was clicked on a notification.
    NotificationAction(u32, String),
    /// A notification was dismissed by the user.
    DismissNotification(u32),
}

/// What the panel tells the shell.
#[derive(Debug)]
pub enum FreshNotificationsOutput {
    NotificationDismissed(u32),
    NotificationActionTriggered(u32, String),
}

/// What the panel asks its runtime to do.
#[derive(Debug)]
pub enum FreshEffect {
    /// Deliver `AutoDismiss(id)` after the auto-dismiss delay.
    StartAutoDismiss(u32),
    /// Cancel the pending auto-dismiss of this notification, if any.
    CancelAutoDismiss(u32),
    /// Forget the auto-dismiss of this notification, which has fired.
    ForgetAutoDismiss(u32),
    /// Deliver this message to the panel next.
    Send(FreshNotificationsMsg),
    /// Tell the shell.
    Output(FreshNotificationsOutput),
}

/// The cards of the fresh-notification panel, from the top.
#[derive(Debug)]
pub struct FreshNotificationsModel {
    pub shown: Vec<Notification>,
}

impl FreshNotificationsModel {
    /// No cards.
    pub fn new() -> (m: Self)
        ensures
            m.shown@.len() == 0,
    {
        FreshNotificationsModel { shown: Vec::new() }
    }

    /// Applies a message to the panel and returns what its runtime does.
    ///
    /// A new notification goes on top, with an auto-dismiss timer unless it
    /// is critical; removing a card cancels its timer; an auto-dismiss or a
    /// dismissal removes the card and reports the dismissal; an action is
    /// reported.
    pub fn update(&mut self, msg: FreshNotificationsMsg) -> (effects: Vec<FreshEffect>)
        ensures
            match msg {
                FreshNotificationsMsg::NewNotification(n) => {
                    &&& final(self).shown@ == old(self).shown@.insert(0, n)
                    &&& effects@ == if n.urgency == NotificationUrgency::Critical {
                        Seq::<FreshEffect>::empty()
                    } else {
                        seq![FreshEffect::StartAutoDismiss(n.id)]
                    }
                },
                FreshNotificationsMsg::RemoveNotification(id) => {
                    &&& final(self).shown@ == without_card(old(self).shown@, id)
                    &&& effects@ == seq![FreshEffect::CancelAutoDismiss(id)]
                },
                FreshNotificationsMsg::AutoDismiss(id) => {
                    &&& final(self).shown@ == old(self).shown@
                    &&& effects@ == seq![
                        FreshEffect::ForgetAutoDismiss(id),
                        FreshEffect::Send(FreshNotificationsMsg::RemoveNotification(id)),
                        FreshEffect::Send(FreshNotificationsMsg::DismissNotification(id)),
                    ]
                },
                FreshNotificationsMsg::DismissNotification(id) => {
                    &&& final(self).shown@ == old(self).shown@
                    &&& effects@ == seq![
                        FreshEffect::Send(FreshNotificationsMsg::RemoveNotification(id)),
                        FreshEffect::Output(FreshNotificationsOutput::NotificationDismissed(id)),
                    ]
                },
                FreshNotificationsMsg::NotificationAction(id, action) => {
                    &&& final(self).shown@ == old(self).shown@
                    &&& effects@ == seq![
                        FreshEffect::Output(
                            FreshNotificationsOutput::NotificationActionTriggered(id, action),
                        ),
                    ]
                },
            },
    {
        let mut effects: Vec<FreshEffect> = Vec::new();
        match msg {
            FreshNotificationsMsg::NewNotification(notification) => {
                let id = notification.id;
                let critical = notification.urgency == NotificationUrgency::Critical;
                self.shown.insert(0, notification);
                if !critical {
                    effects.push(FreshEffect::StartAutoDismiss(id));
                }
            },
            FreshNotificationsMsg::RemoveNotification(id) => {
                effects.push(FreshEffect::CancelAutoDismiss(id));
                match find_card(&self.shown, id) {
                    Some(index) => {
                        self.shown.remove(index);
                    },
                    None => {},
                }
            },
            FreshNotificationsMsg::AutoDismiss(id) => {
                effects.push(FreshEffect::ForgetAutoDismiss(id));
                effects.push(FreshEffect::Send(FreshNotificationsMsg::RemoveNotification(id)));
                effects.push(FreshEffect::Send(FreshNotificationsMsg::DismissNotification(id)));
            },
            FreshNotificationsMsg::DismissNotification(id) => {
                effects.push(FreshEffect::Send(FreshNotificationsMsg::RemoveNotification(id)));
                effects.push(
                    FreshEffect::Output(FreshNotificationsOutput::NotificationDismissed(id)),
                );
            },
            FreshNotificationsMsg::NotificationAction(id, action) => {
                effects.push(
                    FreshEffect::Output(
                        FreshNotificationsOutput::NotificationActionTriggered(id, action),
                    ),
                );
            },
        }
        effects
    }
}

} // verus!
