//! The freedesktop notifications daemon's bookkeeping: id assignment, the
//! notifications it holds, and its fixed answers about itself.

use std::collections::HashMap;

use vstd::prelude::*;

use crate::notifications::CLOSE_REASON_DISMISSED;
use crate::notifications::types::{Notification, NotificationUrgency, pair_actions, paired};

verus! {

broadcast use vstd::std_specs::hash::group_hash_axioms;

/// A `Notify` call: its arguments, and the hints the daemon reads.
#[derive(Debug)]
pub struct NotifyRequest {
    pub app_name: String,
    /// The id of a notification to replace, or 0 for a new one.
    pub replaces_id: u32,
    pub app_icon: String,
    pub summary: String,
    pub body: String,
    /// Identifiers and labels, alternating.
    pub actions: Vec<String>,
    /// The `desktop-entry` hint.
    pub desktop_entry: Option<String>,
    /// The `urgency` hint.
    pub urgency: Option<NotificationUrgency>,
    /// Milliseconds until the notification expires; 0 or less lets the
    /// server decide.
    pub expire_timeout: i32,
}

/// What the daemon answers to a `Notify` call and what it schedules.
#[derive(Debug, Clone, Copy)]
pub struct NotifyOutcome {
    /// The id of the stored notification.
    pub id: u32,
    /// After how many milliseconds the notification is reported closed as
    /// expired, if it expires.
    pub expire_after_ms: Option<u64>,
}

/// The daemon's state: the notifications it holds, by id, and the next id
/// it hands out.
#[derive(Debug)]
pub struct NotificationsDaemon {
    notifications: HashMap<u32, Notification>,
    next_id: u32,
}

/// The next id after `id`, wrapping around past `u32::MAX`.
pub open spec fn after(id: u32) -> u32 {
    if id == u32::MAX {
        0
    } else {
        (id + 1) as u32
    }
}

impl NotificationsDaemon {
    /// The notifications held, by id.
    pub closed spec fn held(&self) -> Map<u32, Notification> {
        self.notifications@
    }

    /// The id the next new notification gets.
    pub closed spec fn upcoming_id(&self) -> u32 {
        self.next_id
    }

    /// No notifications; ids start at 1.
    pub fn new() -> (d: Self)
        ensures
            d.held() == Map::<u32, Notification>::empty(),
            d.upcoming_id() == 1,
    {
        NotificationsDaemon { notifications: HashMap::new(), next_id: 1 }
    }

    /// The id for a notification: the one it replaces, or else the next
    /// fresh id, after which the counter moves on (wrapping around).
    pub fn assign_id(&mut self, replaces_id: u32) -> (id: u32)
        ensures
            replaces_id != 0 ==> id == replaces_id && final(self).upcoming_id() == old(self).upcoming_id(),
            replaces_id == 0 ==> id == old(self).upcoming_id() && final(self).upcoming_id()
                == after(old(self).upcoming_id()),
            final(self).held() == old(self).held(),
    {
        if replaces_id != 0 {
            replaces_id
        } else {
            let id = self.next_id;
            self.next_id = self.next_id.wrapping_add(1);
            id
        }
    }

    /// Handles a `Notify` call received at `timestamp` (seconds since the
    /// epoch): assigns the id, stores the notification, and says when it
    /// expires (only for a positive timeout).
    pub fn notify(&mut self, request: NotifyRequest, timestamp: i64) -> (outcome: NotifyOutcome)
        ensures
            request.replaces_id != 0 ==> outcome.id == request.replaces_id && final(self).upcoming_id() == old(self).upcoming_id(),
            request.replaces_id == 0 ==> outcome.id == old(self).upcoming_id() && final(self).upcoming_id() == after(old(self).upcoming_id()),
            final(self).held().dom() == old(self).held().dom().insert(outcome.id),
            forall|k: u32| k != outcome.id ==> final(self).held().get(k) == old(self).held().get(k),
            ({
                let n = final(self).held()[outcome.id];
                &&& n.id == outcome.id
                &&& n.app_name == request.app_name
                &&& n.app_icon == request.app_icon
                &&& n.summary == request.summary
                &&& n.body == request.body
                &&& n.image@ == Seq::<char>::empty()
                &&& n.desktop_entry@ == match request.desktop_entry {
                    Some(d) => d@,
                    None => Seq::<char>::empty(),
                }
                &&& n.urgency == match request.urgency {
                    Some(u) => u,
                    None => NotificationUrgency::Normal,
                }
                &&& n.timeout == request.expire_timeout
                &&& n.timestamp == timestamp
                &&& n.actions@ == paired(request.actions@)
            }),
            outcome.expire_after_ms == if request.expire_timeout > 0 {
                Some(request.expire_timeout as u64)
            } else {
                None
            },
    {
        let id = self.assign_id(request.replaces_id);
        let actions = pair_actions(&request.actions);
        let urgency = match request.urgency {
            Some(u) => u,
            None => NotificationUrgency::Normal,
        };
        let desktop_entry = match request.desktop_entry {
            Some(d) => d,
            None => String::new(),
        };
        let expire_timeout = request.expire_timeout;
        let notification = Notification {
            id,
            app_name: request.app_name,
            app_icon: request.app_icon,
            desktop_entry,
            image: String::new(),
            summary: request.summary,
            body: request.body,
            urgency,
            timeout: expire_timeout,
            timestamp,
            actions,
        };
        self.notifications.insert(id, notification);
        let expire_after_ms = if expire_timeout > 0 {
            Some(expire_timeout as u64)
        } else {
            None
        };
        NotifyOutcome { id, expire_after_ms }
    }

    /// The notification with this id, if the daemon holds it.
    pub fn notification(&self, id: u32) -> (n: Option<&Notification>)
        ensures
            match n {
                Some(v) => self.held().contains_key(id) && *v == self.held()[id],
                None => !self.held().contains_key(id),
            },
    {
        self.notifications.get(&id)
    }

    /// Handles a `CloseNotification` call: forgets the notification and
    /// returns the close reason reported for it (dismissed).
    pub fn close_notification(&mut self, id: u32) -> (reason: u32)
        ensures
            final(self).held() == old(self).held().remove(id),
            final(self).upcoming_id() == old(self).upcoming_id(),
            reason == CLOSE_REASON_DISMISSED,
    {
        self.notifications.remove(&id);
        CLOSE_REASON_DISMISSED
    }

    /// Forgets every notification.
    pub fn clear_all(&mut self)
        ensures
            final(self).held() == Map::<u32, Notification>::empty(),
            final(self).upcoming_id() == old(self).upcoming_id(),
    {
        self.notifications.clear();
    }
}

/// The optional protocol features the daemon supports.
pub fn get_capabilities() -> (caps: Vec<&'static str>)
    ensures
        caps@.len() == 9,
        caps@[0]@ == "action-icons"@,
        caps@[1]@ == "actions"@,
        caps@[2]@ == "body"@,
        caps@[3]@ == "body-hyperlinks"@,
        caps@[4]@ == "body-images"@,
        caps@[5]@ == "body-markup"@,
        caps@[6]@ == "icon-static"@,
        caps@[7]@ == "persistence"@,
        caps@[8]@ == "sound"@,
{
    vec![
        "action-icons",
        "actions",
        "body",
        "body-hyperlinks",
        "body-images",
        "body-markup",
        "icon-static",
        "persistence",
        "sound",
    ]
}

/// The daemon's name, vendor, version and protocol version.
pub fn get_server_information() -> (info: (&'static str, &'static str, &'static str, &'static str))
    ensures
        info.0@ == "cadenza-shell"@,
        info.1@ == "municorn"@,
        info.2@ == "1.0.0"@,
        info.3@ == "1.3"@,
{
    ("cadenza-shell", "municorn", "1.0.0", "1.3")
}

/// How many of the calls asked for a fresh id.
pub open spec fn fresh_count(requests: Seq<u32>) -> nat
    decreases requests.len(),
{
    if requests.len() == 0 {
        0
    } else {
        fresh_count(requests.drop_last()) + if requests.last() == 0 {
            1nat
        } else {
            0nat
        }
    }
}

/// The counter after a run of calls.
pub open spec fn counter_after(start: u32, requests: Seq<u32>) -> u32
    decreases requests.len(),
{
    if requests.len() == 0 {
        start
    } else {
        let before = counter_after(start, requests.drop_last());
        if requests.last() == 0 {
            after(before)
        } else {
            before
        }
    }
}

proof fn lemma_counter(start: u32, requests: Seq<u32>)
    ensures
        counter_after(start, requests) == ((start + fresh_count(requests)) % 0x1_0000_0000) as u32,
    decreases requests.len(),
{
    if requests.len() > 0 {
        lemma_counter(start, requests.drop_last());
    }
}

/// Fresh ids count up from where the counter stood, one per call that
/// asks for one, wrapping around past `u32::MAX`; a daemon that starts at 1
/// hands out distinct fresh ids until it has handed out `u32::MAX` of
/// them, and never 0 before that.
pub proof fn lemma_fresh_ids_count_up(requests: Seq<u32>)
    ensures
        counter_after(1, requests) == ((1 + fresh_count(requests)) % 0x1_0000_0000) as u32,
        fresh_count(requests) < u32::MAX ==> counter_after(1, requests) == 1 + fresh_count(
            requests,
        ),
{
    lemma_counter(1, requests);
}

} // verus!
