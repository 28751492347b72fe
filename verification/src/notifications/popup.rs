//! The notification popup: the cards it shows, newest on top, and when
//! they are dismissed on their own.

use vstd::prelude::*;

use crate::notifications::center::{newest_first, sort_newest_first};
use crate::notifications::types::{Notification, NotificationUrgency};
use crate::text::same_text;

verus! {

/// Seconds after which a non-critical notification leaves the popup.
pub const AUTO_DISMISS_SECS: u64 = 10;

/// What reaches the popup.
#[derive(Debug)]
pub enum NotificationPopupMsg {
    Toggle,
    SetVisible(bool),
    AddNotification(Notification),
    RemoveNotification(u32),
    UpdateNotifications(Vec<Notification>),
    /// A notification's auto-dismiss delay ran out.
    AutoDismiss(u32),
    /// The action with this key was clicked on a notification.
    NotificationAction(u32, String),
    /// A notification was dismissed by the user.
    DismissNotification(u32),
    /// The notifications the service currently holds, for a periodic check.
    CheckService(Vec<Notification>),
}

/// What the popup tells its owner.
#[derive(Debug)]
pub enum NotificationPopupOutput {
    NotificationDismissed(u32),
    NotificationActionTriggered(u32, String),
    DefaultActionTriggered(u32),
}

/// What the popup asks its runtime to do.
#[derive(Debug)]
pub enum PopupEffect {
    /// Deliver `AutoDismiss(id)` after [`AUTO_DISMISS_SECS`].
    StartAutoDismiss(u32),
    /// Cancel the pending auto-dismiss of this notification, if any.
    CancelAutoDismiss(u32),
    /// Forget the auto-dismiss of this notification, which has fired.
    ForgetAutoDismiss(u32),
    /// Cancel every pending auto-dismiss.
    CancelAllAutoDismiss,
    /// Deliver this message to the popup next.
    Send(NotificationPopupMsg),
    /// Tell the owner.
    Output(NotificationPopupOutput),
    /// Tell the notification service the notification is gone.
    RemoveFromService(u32),
}

/// What the popup holds besides its widgets.
#[derive(Debug)]
pub struct NotificationPopupModel {
    pub visible: bool,
    /// The cards shown, from the top.
    pub shown: Vec<Notification>,
}

/// The auto-dismiss timers started for cards shown in this order: one for
/// each card that is not critical.
pub open spec fn auto_dismissals(cards: Seq<Notification>) -> Seq<PopupEffect>
    decreases cards.len(),
{
    if cards.len() == 0 {
        Seq::empty()
    } else {
        let earlier = auto_dismissals(cards.drop_last());
        if cards.last().urgency == NotificationUrgency::Critical {
            earlier
        } else {
            earlier.push(PopupEffect::StartAutoDismiss(cards.last().id))
        }
    }
}

/// The index of the first card with this id.
pub open spec fn card_index(cards: Seq<Notification>, id: u32) -> Option<int>
    decreases cards.len(),
{
    if cards.len() == 0 {
        None
    } else {
        match card_index(cards.drop_last(), id) {
            Some(i) => Some(i),
            None => if cards.last().id == id {
                Some(cards.len() - 1)
            } else {
                None
            },
        }
    }
}

/// The cards after removing the first one with this id, if any.
pub open spec fn without_card(cards: Seq<Notification>, id: u32) -> Seq<Notification> {
    match card_index(cards, id) {
        Some(i) => cards.remove(i),
        None => cards,
    }
}

proof fn lemma_card_index_prefix(cards: Seq<Notification>, k: int, id: u32)
    requires
        0 <= k <= cards.len(),
        card_index(cards.subrange(0, k), id) is Some,
    ensures
        card_index(cards, id) == card_index(cards.subrange(0, k), id),
    decreases cards.len() - k,
{
    if k < cards.len() {
        assert(cards.subrange(0, k + 1).drop_last() =~= cards.subrange(0, k));
        lemma_card_index_prefix(cards, k + 1, id);
    } else {
        assert(cards.subrange(0, k) =~= cards);
    }
}

/// The position of the first card with this id.
pub(crate) fn find_card(cards: &Vec<Notification>, id: u32) -> (i: Option<usize>)
    ensures
        match i {
            Some(k) => card_index(cards@, id) == Some(k as int) && k < cards@.len(),
            None => card_index(cards@, id) is None,
        },
{
    let mut k: usize = 0;
    while k < cards.len()
        invariant
            k <= cards@.len(),
            card_index(cards@.subrange(0, k as int), id) is None,
        decreases cards.len() - k,
    {
        proof {
            assert(cards@.subrange(0, k + 1).drop_last() =~= cards@.subrange(0, k as int));
        }
        if cards[k].id == id {
            proof {
                lemma_card_index_prefix(cards@, k as int + 1, id);
            }
            return Some(k);
        }
        k = k + 1;
    }
    proof {
        assert(cards@.subrange(0, k as int) =~= cards@);
    }
    None
}

fn start_auto_dismissals(cards: &Vec<Notification>, effects: &mut Vec<PopupEffect>)
    ensures
        final(effects)@ == old(effects)@ + auto_dismissals(cards@),
{
    let ghost start = effects@;
    let mut i: usize = 0;
    while i < cards.len()
        invariant
            i <= cards@.len(),
            effects@ == start + auto_dismissals(cards@.subrange(0, i as int)),
        decreases cards.len() - i,
    {
        proof {
            assert(cards@.subrange(0, i + 1).drop_last() =~= cards@.subrange(0, i as int));
        }
        if cards[i].urgency != NotificationUrgency::Critical {
            effects.push(PopupEffect::StartAutoDismiss(cards[i].id));
            proof {
                assert(effects@ =~= start + auto_dismissals(cards@.subrange(0, i + 1)));
            }
        }
        i = i + 1;
    }
    proof {
        assert(cards@.subrange(0, i as int) =~= cards@);
    }
}

impl NotificationPopupModel {
    /// A visible popup with no cards.
    pub fn new() -> (m: Self)
        ensures
            m.visible,
            m.shown@.len() == 0,
    {
        NotificationPopupModel { visible: true, shown: Vec::new() }
    }

    /// Whether the popup window shows: when visible and holding a card.
    pub fn window_visible(&self) -> (b: bool)
        ensures
            b == (self.visible && self.shown@.len() > 0),
    {
        self.visible && self.shown.len() > 0
    }

    /// Applies a message to the popup and returns what its runtime does.
    ///
    /// A new notification goes on top, with an auto-dismiss timer unless it
    /// is critical. Replacing the list cancels every timer and shows the
    /// notifications newest first, each non-critical one with a timer.
    /// Removing a card cancels its timer. A dismissal, an action or an
    /// auto-dismiss removes the card; a dismissal and an auto-dismiss also
    /// tell the service; an action named `default` is reported as the
    /// default action.
    pub fn update(&mut self, msg: NotificationPopupMsg) -> (effects: Vec<PopupEffect>)
        ensures
            match msg {
                NotificationPopupMsg::Toggle => final(self).visible == !old(self).visible
                    && final(self).shown@ == old(self).shown@ && effects@.len() == 0,
                NotificationPopupMsg::SetVisible(v) => final(self).visible == v && final(
                    self).shown@ == old(self).shown@ && effects@.len() == 0,
                NotificationPopupMsg::AddNotification(n) => {
                    &&& final(self).visible == old(self).visible
                    &&& final(self).shown@ == old(self).shown@.insert(0, n)
                    &&& effects@ == if n.urgency == NotificationUrgency::Critical {
                        Seq::<PopupEffect>::empty()
                    } else {
                        seq![PopupEffect::StartAutoDismiss(n.id)]
                    }
                },
                NotificationPopupMsg::RemoveNotification(id) => {
                    &&& final(self).visible == old(self).visible
                    &&& final(self).shown@ == without_card(old(self).shown@, id)
                    &&& effects@ == seq![PopupEffect::CancelAutoDismiss(id)]
                },
                NotificationPopupMsg::UpdateNotifications(list) => {
                    &&& final(self).visible == old(self).visible
                    &&& final(self).shown@ == newest_first(list@)
                    &&& effects@ == seq![PopupEffect::CancelAllAutoDismiss] + auto_dismissals(
                        newest_first(list@),
                    )
                },
                NotificationPopupMsg::AutoDismiss(id) => {
                    &&& *final(self) == *old(self)
                    &&& effects@ == seq![
                        PopupEffect::ForgetAutoDismiss(id),
                        PopupEffect::Send(NotificationPopupMsg::RemoveNotification(id)),
                        PopupEffect::Send(NotificationPopupMsg::DismissNotification(id)),
                    ]
                },
                NotificationPopupMsg::DismissNotification(id) => {
                    &&& *final(self) == *old(self)
                    &&& effects@ == seq![
                        PopupEffect::Send(NotificationPopupMsg::RemoveNotification(id)),
                        PopupEffect::RemoveFromService(id),
                        PopupEffect::Output(NotificationPopupOutput::NotificationDismissed(id)),
                    ]
                },
                NotificationPopupMsg::NotificationAction(id, action) => {
                    &&& *final(self) == *old(self)
                    &&& effects@ == seq![
                        PopupEffect::Send(NotificationPopupMsg::RemoveNotification(id)),
                        PopupEffect::Output(
                            if action@ == "default"@ {
                                NotificationPopupOutput::DefaultActionTriggered(id)
                            } else {
                                NotificationPopupOutput::NotificationActionTriggered(id, action)
                            },
                        ),
                    ]
                },
                NotificationPopupMsg::CheckService(current) => {
                    &&& *final(self) == *old(self)
                    &&& effects@ == if current@.len() != old(self).shown@.len() {
                        seq![PopupEffect::Send(NotificationPopupMsg::UpdateNotifications(current))]
                    } else {
                        Seq::<PopupEffect>::empty()
                    }
                },
            },
    {
        let mut effects: Vec<PopupEffect> = Vec::new();
        match msg {
            NotificationPopupMsg::Toggle => {
                self.visible = !self.visible;
            },
            NotificationPopupMsg::SetVisible(visible) => {
                self.visible = visible;
            },
            NotificationPopupMsg::AddNotification(notification) => {
                let id = notification.id;
                let critical = notification.urgency == NotificationUrgency::Critical;
                self.shown.insert(0, notification);
                if !critical {
                    effects.push(PopupEffect::StartAutoDismiss(id));
                }
            },
            NotificationPopupMsg::RemoveNotification(id) => {
                effects.push(PopupEffect::CancelAutoDismiss(id));
                match find_card(&self.shown, id) {
                    Some(index) => {
                        self.shown.remove(index);
                    },
                    None => {},
                }
            },
            NotificationPopupMsg::UpdateNotifications(notifications) => {
                effects.push(PopupEffect::CancelAllAutoDismiss);
                let sorted = sort_newest_first(notifications);
                start_auto_dismissals(&sorted, &mut effects);
                self.shown = sorted;
            },
            NotificationPopupMsg::AutoDismiss(id) => {
                effects.push(PopupEffect::ForgetAutoDismiss(id));
                effects.push(PopupEffect::Send(NotificationPopupMsg::RemoveNotification(id)));
                effects.push(PopupEffect::Send(NotificationPopupMsg::DismissNotification(id)));
            },
            NotificationPopupMsg::DismissNotification(id) => {
                effects.push(PopupEffect::Send(NotificationPopupMsg::RemoveNotification(id)));
                effects.push(PopupEffect::RemoveFromService(id));
                effects.push(
                    PopupEffect::Output(NotificationPopupOutput::NotificationDismissed(id)),
                );
            },
            NotificationPopupMsg::NotificationAction(id, action) => {
                effects.push(PopupEffect::Send(NotificationPopupMsg::RemoveNotification(id)));
                if same_text(action.as_str(), "default") {
                    effects.push(
                        PopupEffect::Output(NotificationPopupOutput::DefaultActionTriggered(id)),
                    );
                } else {
                    effects.push(
                        PopupEffect::Output(
                            NotificationPopupOutput::NotificationActionTriggered(id, action),
                        ),
                    );
                }
            },
            NotificationPopupMsg::CheckService(current) => {
                if current.len() != self.shown.len() {
                    effects.push(
                        PopupEffect::Send(NotificationPopupMsg::UpdateNotifications(current)),
                    );
                }
            },
        }
        effects
    }
}

/// A critical notification is never dismissed on its own: every timer the
/// popup starts for a list is for a card that is not critical.
pub proof fn lemma_critical_never_auto_dismissed(cards: Seq<Notification>)
    ensures
        forall|k: int|
            0 <= k < auto_dismissals(cards).len() ==> (#[trigger] auto_dismissals(cards)[k] matches PopupEffect::StartAutoDismiss(id)
                && exists|i: int|
                0 <= i < cards.len() && cards[i].id == id && cards[i].urgency
                    != NotificationUrgency::Critical),
    decreases cards.len(),
{
    if cards.len() > 0 {
        let init = cards.drop_last();
        lemma_critical_never_auto_dismissed(init);
        assert forall|k: int| 0 <= k < auto_dismissals(cards).len() implies (
        #[trigger] auto_dismissals(cards)[k] matches PopupEffect::StartAutoDismiss(id) && exists|i: int|
            0 <= i < cards.len() && cards[i].id == id && cards[i].urgency
                != NotificationUrgency::Critical) by {
            if k < auto_dismissals(init).len() {
                assert(auto_dismissals(cards)[k] == auto_dismissals(init)[k]);
                let id = auto_dismissals(init)[k]->StartAutoDismiss_0;
                let i = choose|i: int|
                    0 <= i < init.len() && init[i].id == id && init[i].urgency
                        != NotificationUrgency::Critical;
                assert(cards[i] == init[i]);
            } else {
                assert(cards[cards.len() - 1].id == cards.last().id);
            }
        }
    }
}

} // verus!
