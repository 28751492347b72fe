//! Notifications as the daemon receives them.

use vstd::prelude::*;

verus! {

/// A notification received over the freedesktop notifications protocol.
#[derive(Debug, Clone)]
pub struct Notification {
    pub id: u32,
    pub app_name: String,
    pub app_icon: String,
    pub desktop_entry: String,
    pub image: String,
    pub summary: String,
    pub body: String,
    pub urgency: NotificationUrgency,
    pub timeout: i32,
    pub timestamp: i64,
    /// `(identifier, label)` pairs; the label is shown on the action's
    /// button.
    pub actions: Vec<(String, String)>,
}

/// How urgent a notification is, as the `urgency` hint gives it.
#[derive(Debug, Clone, Copy, PartialEq, Eq, Structural)]
pub enum NotificationUrgency {
    Low,
    Normal,
    Critical,
}

impl Default for NotificationUrgency {
    fn default() -> (u: Self)
        ensures
            u == NotificationUrgency::Normal,
    {
        NotificationUrgency::Normal
    }
}

/// The urgency a hint's byte names: 0 is low, 1 normal, 2 critical.
pub open spec fn urgency_named(code: u8) -> Option<NotificationUrgency> {
    if code == 0 {
        Some(NotificationUrgency::Low)
    } else if code == 1 {
        Some(NotificationUrgency::Normal)
    } else if code == 2 {
        Some(NotificationUrgency::Critical)
    } else {
        None
    }
}

impl NotificationUrgency {
    /// The urgency a hint's byte names, if it names one.
    pub fn from_code(code: u8) -> (u: Option<Self>)
        ensures
            u == urgency_named(code),
    {
        if code == 0 {
            Some(NotificationUrgency::Low)
        } else if code == 1 {
            Some(NotificationUrgency::Normal)
        } else if code == 2 {
            Some(NotificationUrgency::Critical)
        } else {
            None
        }
    }

    /// The byte the protocol uses for this urgency.
    pub fn code(&self) -> (code: u8)
        ensures
            urgency_named(code) == Some(*self),
    {
        match self {
            NotificationUrgency::Low => 0,
            NotificationUrgency::Normal => 1,
            NotificationUrgency::Critical => 2,
        }
    }
}

/// The `(identifier, label)` pairs of a flat action list: even-indexed
/// strings are identifiers, odd-indexed ones the labels shown on the
/// buttons; a trailing identifier without a label is dropped.
pub open spec fn paired(actions: Seq<String>) -> Seq<(String, String)> {
    Seq::new(actions.len() / 2, |i: int| (actions[2 * i], actions[2 * i + 1]))
}

/// Pairs a flat action list into `(identifier, label)` pairs.
pub fn pair_actions(actions: &Vec<String>) -> (pairs: Vec<(String, String)>)
    ensures
        pairs@ == paired(actions@),
{
    let mut pairs: Vec<(String, String)> = Vec::new();
    let mut i: usize = 0;
    while i + 1 < actions.len()
        invariant
            i % 2 == 0,
            i <= actions@.len(),
            pairs@.len() == i / 2,
            forall|k: int| 0 <= k < i / 2 ==> #[trigger] pairs@[k] == paired(actions@)[k],
        decreases actions.len() - i,
    {
        let id = actions[i].clone();
        let label = actions[i + 1].clone();
        pairs.push((id, label));
        proof {
            assert(paired(actions@)[(i / 2) as int] == (actions@[i as int], actions@[i + 1]));
        }
        i = i + 2;
    }
    proof {
        assert(pairs@ =~= paired(actions@));
    }
    pairs
}

/// The style class of a card for a notification's urgency.
pub fn urgency_class(urgency: NotificationUrgency) -> (class: &'static str)
    ensures
        class@ == match urgency {
            NotificationUrgency::Low => "low"@,
            NotificationUrgency::Normal => "normal"@,
            NotificationUrgency::Critical => "critical"@,
        },
{
    match urgency {
        NotificationUrgency::Low => "low",
        NotificationUrgency::Normal => "normal",
        NotificationUrgency::Critical => "critical",
    }
}

/// The style class of a card for an urgency byte: 0 is low, 2 critical,
/// anything else normal.
pub fn urgency_class_of_code(code: u8) -> (class: &'static str)
    ensures
        class@ == if code == 0 {
            "low"@
        } else if code == 2 {
            "critical"@
        } else {
            "normal"@
        },
{
    if code == 0 {
        "low"
    } else if code == 2 {
        "critical"
    } else {
        "normal"
    }
}

/// The icon a card shows for a notification: its own icon when it names
/// one, else its desktop entry when the icon theme has an icon of that
/// name.
pub fn app_icon_name(notification: &Notification, desktop_entry_is_icon: bool) -> (icon: Option<
    String,
>)
    ensures
        notification.app_icon@.len() > 0 ==> icon == Some(notification.app_icon),
        notification.app_icon@.len() == 0 ==> icon == if desktop_entry_is_icon {
            Some(notification.desktop_entry)
        } else {
            None
        },
{
    if notification.app_icon.as_str().unicode_len() > 0 {
        Some(notification.app_icon.clone())
    } else if desktop_entry_is_icon {
        Some(notification.desktop_entry.clone())
    } else {
        None
    }
}

} // verus!
