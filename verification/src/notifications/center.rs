//! The notification center: newest-first ordering, the age shown on each
//! card, and what the center's buttons ask of the service.

use vstd::prelude::*;

use crate::notifications::types::Notification;
use crate::notifications::{NotificationCommand};
use crate::text::{decimal, push_decimal};

verus! {

/// How many leading entries of `sorted` are strictly newer than `timestamp`.
pub open spec fn leading_newer(sorted: Seq<Notification>, timestamp: i64) -> nat
    decreases sorted.len(),
{
    if sorted.len() == 0 {
        0
    } else if sorted[0].timestamp > timestamp {
        1 + leading_newer(sorted.drop_first(), timestamp)
    } else {
        0
    }
}

/// `n` placed into the newest-first list `sorted`, before the entries that
/// are as old as it or older.
pub open spec fn insert_newest_first(sorted: Seq<Notification>, n: Notification) -> Seq<
    Notification,
> {
    sorted.insert(leading_newer(sorted, n.timestamp) as int, n)
}

/// The notifications newest first; notifications of the same time keep
/// their order.
pub open spec fn newest_first(items: Seq<Notification>) -> Seq<Notification>
    decreases items.len(),
{
    if items.len() == 0 {
        Seq::empty()
    } else {
        insert_newest_first(newest_first(items.drop_first()), items[0])
    }
}

/// No entry is newer than an entry before it.
pub open spec fn is_newest_first(items: Seq<Notification>) -> bool {
    forall|i: int, j: int|
        0 <= i < j < items.len() ==> #[trigger] items[i].timestamp >= #[trigger] items[j].timestamp
}

proof fn lemma_leading_newer(sorted: Seq<Notification>, timestamp: i64)
    ensures
        leading_newer(sorted, timestamp) <= sorted.len(),
        forall|i: int| 0 <= i < leading_newer(sorted, timestamp) ==> #[trigger] sorted[i].timestamp
            > timestamp,
        leading_newer(sorted, timestamp) < sorted.len() ==> sorted[leading_newer(
            sorted,
            timestamp,
        ) as int].timestamp <= timestamp,
    decreases sorted.len(),
{
    if sorted.len() > 0 && sorted[0].timestamp > timestamp {
        lemma_leading_newer(sorted.drop_first(), timestamp);
        assert forall|i: int| 0 <= i < leading_newer(sorted, timestamp) implies #[trigger] sorted[i].timestamp
            > timestamp by {
            if i > 0 {
                assert(sorted[i] == sorted.drop_first()[i - 1]);
            }
        }
        if leading_newer(sorted, timestamp) < sorted.len() {
            assert(sorted[leading_newer(sorted, timestamp) as int] == sorted.drop_first()[leading_newer(
                sorted.drop_first(),
                timestamp,
            ) as int]);
        }
    }
}

/// The newest-first order holds of the sorted notifications, which are the
/// given ones, each as often as given.
pub proof fn lemma_newest_first_sorts(items: Seq<Notification>)
    ensures
        is_newest_first(newest_first(items)),
        newest_first(items).to_multiset() == items.to_multiset(),
    decreases items.len(),
{
    broadcast use vstd::seq_lib::group_to_multiset_ensures;

    if items.len() > 0 {
        let rest = newest_first(items.drop_first());
        lemma_newest_first_sorts(items.drop_first());
        let n = items[0];
        let p = leading_newer(rest, n.timestamp) as int;
        lemma_leading_newer(rest, n.timestamp);
        let out = rest.insert(p, n);
        assert forall|i: int, j: int| 0 <= i < j < out.len() implies #[trigger] out[i].timestamp
            >= #[trigger] out[j].timestamp by {
            if j < p {
                assert(out[i] == rest[i] && out[j] == rest[j]);
            } else if j == p {
                assert(out[i] == rest[i]);
            } else if i == p {
                assert(out[j] == rest[j - 1]);
                if p < rest.len() {
                    assert(rest[p].timestamp <= n.timestamp);
                    if j - 1 > p {
                        assert(rest[p].timestamp >= rest[j - 1].timestamp);
                    }
                }
            } else if i < p {
                assert(out[i] == rest[i] && out[j] == rest[j - 1]);
            } else {
                assert(out[i] == rest[i - 1] && out[j] == rest[j - 1]);
            }
        }
        assert(items =~= seq![n] + items.drop_first());
        vstd::seq_lib::lemma_multiset_commutative(seq![n], items.drop_first());
        assert(items.drop_first().push(n).to_multiset() == items.drop_first().to_multiset().insert(n));
        vstd::seq_lib::lemma_multiset_commutative(items.drop_first(), seq![n]);
        assert(items.drop_first() + seq![n] =~= items.drop_first().push(n));
    }
}

fn newer_count(sorted: &Vec<Notification>, timestamp: i64) -> (p: usize)
    ensures
        p == leading_newer(sorted@, timestamp),
        p <= sorted@.len(),
{
    proof {
        lemma_leading_newer(sorted@, timestamp);
    }
    let mut i: usize = 0;
    proof {
        assert(sorted@.subrange(0, sorted@.len() as int) =~= sorted@);
    }
    while i < sorted.len() && sorted[i].timestamp > timestamp
        invariant
            i <= sorted@.len(),
            forall|k: int| 0 <= k < i ==> #[trigger] sorted@[k].timestamp > timestamp,
            leading_newer(sorted@, timestamp) >= i,
            leading_newer(sorted@, timestamp) == i + leading_newer(
                sorted@.subrange(i as int, sorted@.len() as int),
                timestamp,
            ),
        decreases sorted.len() - i,
    {
        proof {
            let tail = sorted@.subrange(i as int, sorted@.len() as int);
            assert(tail.drop_first() =~= sorted@.subrange(i + 1, sorted@.len() as int));
        }
        i = i + 1;
    }
    proof {
        let tail = sorted@.subrange(i as int, sorted@.len() as int);
        if i < sorted@.len() {
            assert(tail[0] == sorted@[i as int]);
        }
    }
    i
}

/// Sorts notifications newest first; notifications of the same time keep
/// their order.
pub fn sort_newest_first(items: Vec<Notification>) -> (sorted: Vec<Notification>)
    ensures
        sorted@ == newest_first(items@),
{
    let ghost all = items@;
    let n = items.len();
    let mut remaining = items;
    let mut sorted: Vec<Notification> = Vec::new();
    proof {
        assert(all.subrange(n as int, n as int) =~= Seq::<Notification>::empty());
    }
    while remaining.len() > 0
        invariant
            n == all.len(),
            remaining@.len() <= n,
            remaining@ == all.subrange(0, remaining@.len() as int),
            sorted@ == newest_first(all.subrange(remaining@.len() as int, n as int)),
        decreases remaining.len(),
    {
        let ghost r = remaining@.len() - 1;
        let item = remaining.pop().unwrap();
        proof {
            assert(item == all[r]);
            assert(remaining@ =~= all.subrange(0, r));
            let suffix = all.subrange(r, n as int);
            assert(suffix.drop_first() =~= all.subrange(r + 1, n as int));
            assert(suffix[0] == item);
        }
        let p = newer_count(&sorted, item.timestamp);
        sorted.insert(p, item);
    }
    proof {
        assert(all.subrange(0, n as int) =~= all);
    }
    sorted
}

/// How long ago a notification arrived, as a card shows it: `now` under a
/// minute (or in the future), then whole minutes, hours, or days.
pub open spec fn age_text(elapsed_secs: int) -> Seq<char> {
    if elapsed_secs < 60 {
        "now"@
    } else if elapsed_secs < 3600 {
        decimal((elapsed_secs / 60) as nat) + "m"@
    } else if elapsed_secs < 86400 {
        decimal((elapsed_secs / 3600) as nat) + "h"@
    } else {
        decimal((elapsed_secs / 86400) as nat) + "d"@
    }
}

/// Formats how long ago a notification arrived, given the seconds elapsed
/// since its timestamp.
pub fn format_age(elapsed_secs: i64) -> (text: String)
    ensures
        text@ == age_text(elapsed_secs as int),
{
    if elapsed_secs < 60 {
        "now".to_owned()
    } else {
        let secs = elapsed_secs as u64;
        let mut text = String::new();
        if secs < 3600 {
            push_decimal(&mut text, secs / 60);
            text.append("m");
        } else if secs < 86400 {
            push_decimal(&mut text, secs / 3600);
            text.append("h");
        } else {
            push_decimal(&mut text, secs / 86400);
            text.append("d");
        }
        text
    }
}

/// What reaches the notification center.
#[derive(Debug)]
pub enum NotificationCenterMsg {
    Toggle,
    DismissAll,
    StateUpdate,
    DismissNotification(u32),
    NotificationAction(u32, String),
}

/// Applies a message to the center's visibility and returns the command,
/// if any, for the notification service.
pub fn center_update(visible: &mut bool, msg: NotificationCenterMsg) -> (command: Option<
    NotificationCommand,
>)
    ensures
        match msg {
            NotificationCenterMsg::Toggle => *final(visible) == !*old(visible) && command is None,
            NotificationCenterMsg::DismissAll => *final(visible) == *old(visible) && command
                == Some(NotificationCommand::ClearAll),
            NotificationCenterMsg::StateUpdate => *final(visible) == *old(visible) && command is None,
            NotificationCenterMsg::DismissNotification(id) => *final(visible) == *old(visible)
                && command == Some(NotificationCommand::Dismiss(id)),
            NotificationCenterMsg::NotificationAction(id, action) => *final(visible) == *old(
                visible,
            ) && command == Some(NotificationCommand::InvokeAction { id, action_key: action }),
        },
{
    match msg {
        NotificationCenterMsg::Toggle => {
            *visible = !*visible;
            None
        },
        NotificationCenterMsg::DismissAll => Some(NotificationCommand::ClearAll),
        NotificationCenterMsg::StateUpdate => None,
        NotificationCenterMsg::DismissNotification(id) => Some(NotificationCommand::Dismiss(id)),
        NotificationCenterMsg::NotificationAction(id, action) => Some(
            NotificationCommand::InvokeAction { id, action_key: action },
        ),
    }
}

} // verus!
