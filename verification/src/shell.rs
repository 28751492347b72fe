//! The shell's top level: one bar per monitor, a single panel of fresh
//! notifications anchored to one of them, and where notification events go.

use vstd::prelude::*;

use crate::notifications::types::Notification;
use crate::notifications::{NotificationCommand, NotificationEvent};

verus! {

/// What the shell asks its runtime to do when monitors come and go.
#[derive(Debug, Clone)]
pub enum ShellEffect {
    /// Drop the bar of this connector (it is about to be replaced).
    DropBar(String),
    /// Create a bar on the monitor of this connector.
    CreateBar(String),
    /// Create the fresh-notification panel on the monitor of this connector.
    CreateFreshPanel(String),
    /// Drop the fresh-notification panel.
    DropFreshPanel,
}

/// No connector occurs twice.
pub open spec fn connectors_distinct(bars: Seq<String>) -> bool {
    forall|i: int, j: int|
        0 <= i < bars.len() && 0 <= j < bars.len() && i != j ==> #[trigger] bars[i]@
            != #[trigger] bars[j]@
}

/// The connectors of a list.
pub open spec fn connector_set(bars: Seq<String>) -> Set<Seq<char>> {
    Set::new(|c: Seq<char>| exists|i: int| 0 <= i < bars.len() && #[trigger] bars[i]@ == c)
}

/// Which monitors have bars, and which one the fresh-notification panel is
/// anchored to.
#[derive(Debug)]
pub struct ShellLayout {
    bars: Vec<String>,
    panel_owner: Option<String>,
}

impl ShellLayout {
    /// One bar per connector; the panel sits on a monitor with a bar.
    #[verifier::type_invariant]
    closed spec fn anchored(&self) -> bool {
        &&& connectors_distinct(self.bars@)
        &&& self.panel_owner matches Some(o) ==> connector_set(self.bars@).contains(o@)
    }

    /// The connectors of the monitors with a bar.
    pub closed spec fn bar_set(&self) -> Set<Seq<char>> {
        connector_set(self.bars@)
    }

    /// The connector the fresh-notification panel is anchored to, if there
    /// is a panel.
    pub closed spec fn panel(&self) -> Option<Seq<char>> {
        match self.panel_owner {
            Some(o) => Some(o@),
            None => None,
        }
    }

    /// The panel, when there is one, sits on a monitor that has a bar.
    pub open spec fn panel_on_a_bar(&self) -> bool {
        self.panel() matches Some(o) ==> self.bar_set().contains(o)
    }

    /// No monitors, no panel.
    pub fn new() -> (s: Self)
        ensures
            s.bar_set() == Set::<Seq<char>>::empty(),
            s.panel() is None,
    {
        let s = ShellLayout { bars: Vec::new(), panel_owner: None };
        proof {
            assert(connector_set(s.bars@) =~= Set::<Seq<char>>::empty());
        }
        s
    }

    fn take_parts(&mut self) -> (parts: (Vec<String>, Option<String>))
        ensures
            parts.0@ == old(self).bars@,
            parts.1 == old(self).panel_owner,
            connectors_distinct(parts.0@),
            parts.1 matches Some(o) ==> connector_set(parts.0@).contains(o@),
    {
        let mut parts = ShellLayout { bars: Vec::new(), panel_owner: None };
        proof {
            assert(connector_set(parts.bars@) =~= Set::<Seq<char>>::empty());
        }
        std::mem::swap(&mut parts, self);
        proof {
            use_type_invariant(&parts);
        }
        let ShellLayout { bars, panel_owner } = parts;
        (bars, panel_owner)
    }

    /// The connectors of the monitors with a bar, for broadcasting to every
    /// bar.
    pub fn bar_connectors(&self) -> (bars: &Vec<String>)
        ensures
            connector_set(bars@) == self.bar_set(),
            connectors_distinct(bars@),
    {
        proof {
            use_type_invariant(self);
        }
        &self.bars
    }

    /// A monitor was added: its bar is (re)created, replacing a stale bar of
    /// the same connector, and the fresh-notification panel is created on it
    /// if there is no panel yet.
    pub fn monitor_added(&mut self, connector: String) -> (effects: Vec<ShellEffect>)
        ensures
            final(self).bar_set() == old(self).bar_set().insert(connector@),
            final(self).panel() == match old(self).panel() {
                Some(o) => Some(o),
                None => Some(connector@),
            },
            final(self).panel_on_a_bar(),
            effects@.len() == (if old(self).bar_set().contains(connector@) {
                1int
            } else {
                0int
            }) + 1 + (if old(self).panel() is None {
                1int
            } else {
                0int
            }),
            old(self).bar_set().contains(connector@) ==> (effects@[0] matches ShellEffect::DropBar(
                c,
            ) && c@ == connector@),
            ({
                let at = if old(self).bar_set().contains(connector@) {
                    1int
                } else {
                    0int
                };
                &&& effects@[at] matches ShellEffect::CreateBar(c) && c@ == connector@
                &&& old(self).panel() is None ==> (effects@[at + 1] matches ShellEffect::CreateFreshPanel(
                    c,
                ) && c@ == connector@)
            }),
    {
        proof {
            use_type_invariant(&*self);
        }
        let (mut bars, mut panel_owner) = self.take_parts();
        let ghost before = bars@;
        let mut effects: Vec<ShellEffect> = Vec::new();
        let mut i: usize = 0;
        let mut found = false;
        while i < bars.len()
            invariant
                bars@ == before,
                i <= bars@.len(),
                !found ==> forall|k: int| 0 <= k < i ==> #[trigger] bars@[k]@ != connector@,
                found ==> exists|k: int| 0 <= k < bars@.len() && #[trigger] bars@[k]@ == connector@,
            decreases bars.len() - i,
        {
            if bars[i] == connector {
                found = true;
            }
            i = i + 1;
        }
        if found {
            effects.push(ShellEffect::DropBar(connector.clone()));
        } else {
            proof {
                assert(!connector_set(before).contains(connector@));
            }
            bars.push(connector.clone());
            proof {
                assert forall|p: int, q: int|
                    0 <= p < bars@.len() && 0 <= q < bars@.len() && p != q implies #[trigger] bars@[p]@
                    != #[trigger] bars@[q]@ by {
                    if p < before.len() && q < before.len() {
                    } else if p < before.len() {
                        assert(connector_set(before).contains(bars@[p]@));
                    } else {
                        assert(connector_set(before).contains(bars@[q]@));
                    }
                }
            }
        }
        proof {
            assert(connector_set(bars@) =~= connector_set(before).insert(connector@)) by {
                assert forall|c: Seq<char>| #[trigger] connector_set(bars@).contains(c) implies connector_set(before).insert(connector@).contains(c) by {
                    let k = choose|k: int| 0 <= k < bars@.len() && #[trigger] bars@[k]@ == c;
                    if k < before.len() {
                        assert(before[k]@ == c);
                    }
                }
                assert forall|c: Seq<char>| #[trigger] connector_set(before).insert(connector@).contains(c) implies connector_set(bars@).contains(c) by {
                    if c == connector@ {
                        if found {
                            let k = choose|k: int| 0 <= k < bars@.len() && #[trigger] bars@[k]@ == connector@;
                        } else {
                            assert(bars@[bars@.len() - 1]@ == connector@);
                        }
                    } else {
                        let k = choose|k: int| 0 <= k < before.len() && #[trigger] before[k]@ == c;
                        assert(bars@[k] == before[k]);
                    }
                }
            }
        }
        effects.push(ShellEffect::CreateBar(connector.clone()));
        if panel_owner.is_none() {
            effects.push(ShellEffect::CreateFreshPanel(connector.clone()));
            panel_owner = Some(connector);
        }
        *self = ShellLayout { bars, panel_owner };
        effects
    }

    /// A monitor was removed or became invalid: its bar goes, and so does
    /// the fresh-notification panel if it was anchored there (it is created
    /// again on the next monitor that is added). Returns whether the panel
    /// was dropped.
    pub fn monitor_removed(&mut self, connector: &str) -> (panel_dropped: bool)
        ensures
            final(self).bar_set() == old(self).bar_set().remove(connector@),
            panel_dropped == (old(self).panel() == Some(connector@)),
            final(self).panel() == if panel_dropped {
                None
            } else {
                old(self).panel()
            },
            final(self).panel_on_a_bar(),
    {
        proof {
            use_type_invariant(&*self);
        }
        let (mut bars, mut panel_owner) = self.take_parts();
        let ghost before = bars@;
        match position_of_connector(&bars, connector) {
            Some(i) => {
                bars.remove(i);
                proof {
                    assert forall|p: int, q: int|
                        0 <= p < bars@.len() && 0 <= q < bars@.len() && p != q implies #[trigger] bars@[p]@
                        != #[trigger] bars@[q]@ by {
                        let pp = if p < i { p } else { p + 1 };
                        let qq = if q < i { q } else { q + 1 };
                        assert(bars@[p] == before[pp] && bars@[q] == before[qq]);
                    }
                    assert(connector_set(bars@) =~= connector_set(before).remove(connector@)) by {
                        assert forall|c: Seq<char>| #[trigger] connector_set(bars@).contains(c) implies connector_set(before).remove(connector@).contains(c) by {
                            let k = choose|k: int| 0 <= k < bars@.len() && #[trigger] bars@[k]@ == c;
                            let kk = if k < i { k } else { k + 1 };
                            assert(bars@[k] == before[kk]);
                            assert(before[i as int]@ == connector@);
                        }
                        assert forall|c: Seq<char>| #[trigger] connector_set(before).remove(connector@).contains(c) implies connector_set(bars@).contains(c) by {
                            let k = choose|k: int| 0 <= k < before.len() && #[trigger] before[k]@ == c;
                            assert(k != i);
                            if k < i {
                                assert(bars@[k] == before[k]);
                            } else {
                                assert(bars@[k - 1] == before[k]);
                            }
                        }
                    }
                }
            },
            None => {
                proof {
                    assert(connector_set(before).remove(connector@) =~= connector_set(before));
                }
            },
        }
        let dropped = match &panel_owner {
            Some(o) => crate::text::same_text(o.as_str(), connector),
            None => false,
        };
        if dropped {
            panel_owner = None;
        }
        *self = ShellLayout { bars, panel_owner };
        dropped
    }
}

/// The position of the bar of this connector, if there is one.
fn position_of_connector(bars: &Vec<String>, connector: &str) -> (p: Option<usize>)
    ensures
        match p {
            Some(i) => i < bars@.len() && bars@[i as int]@ == connector@,
            None => !connector_set(bars@).contains(connector@),
        },
{
    let mut i: usize = 0;
    while i < bars.len()
        invariant
            i <= bars@.len(),
            forall|k: int| 0 <= k < i ==> #[trigger] bars@[k]@ != connector@,
        decreases bars.len() - i,
    {
        if crate::text::same_text(bars[i].as_str(), connector) {
            return Some(i);
        }
        i = i + 1;
    }
    None
}

/// What reaches the fresh-notification panel from the shell.
#[derive(Debug)]
pub enum FreshPanelInput {
    NewNotification(Notification),
    RemoveNotification(u32),
}

/// Where a notification event goes: a new notification to the panel, a
/// closed one out of it; other events need nothing, and without a panel
/// nothing is forwarded.
pub fn fresh_panel_input(has_panel: bool, event: NotificationEvent) -> (input: Option<
    FreshPanelInput,
>)
    ensures
        !has_panel ==> input is None,
        has_panel ==> match event {
            NotificationEvent::Received(n) => input == Some(FreshPanelInput::NewNotification(n)),
            NotificationEvent::Closed { id, .. } => input == Some(
                FreshPanelInput::RemoveNotification(id),
            ),
            _ => input is None,
        },
{
    if !has_panel {
        return None;
    }
    match event {
        NotificationEvent::Received(notification) => Some(
            FreshPanelInput::NewNotification(notification),
        ),
        NotificationEvent::Closed { id, .. } => Some(FreshPanelInput::RemoveNotification(id)),
        NotificationEvent::AllCleared | NotificationEvent::ActionInvoked { .. } => None,
    }
}

/// What the fresh panel's outputs ask of the notification service: a
/// dismissal, or an action.
pub fn fresh_panel_command(dismissed: Option<u32>, action: Option<(u32, String)>) -> (command:
    Option<NotificationCommand>)
    ensures
        dismissed matches Some(id) ==> command == Some(NotificationCommand::Dismiss(id)),
        dismissed is None ==> command == match action {
            Some((id, key)) => Some(NotificationCommand::InvokeAction { id, action_key: key }),
            None => None,
        },
{
    match dismissed {
        Some(id) => Some(NotificationCommand::Dismiss(id)),
        None => match action {
            Some((id, key)) => Some(NotificationCommand::InvokeAction { id, action_key: key }),
            None => None,
        },
    }
}

/// Mirrors a change of the display's monitor list on the known
/// connectors: the `removed` connectors at `position` are replaced by
/// `added`. Returns the connectors that left.
pub fn splice_connectors(
    connectors: &mut Vec<String>,
    position: usize,
    removed: usize,
    added: Vec<String>,
) -> (left: Vec<String>)
    requires
        position + removed <= old(connectors)@.len(),
    ensures
        left@ == old(connectors)@.subrange(position as int, position + removed),
        final(connectors)@ == old(connectors)@.subrange(0, position as int) + added@ + old(
            connectors,
        )@.subrange(position + removed, old(connectors)@.len() as int),
{
    let ghost start = connectors@;
    let mut left: Vec<String> = Vec::new();
    let mut k: usize = 0;
    while k < removed
        invariant
            k <= removed,
            position + removed <= start.len(),
            connectors@ == start.subrange(0, position as int) + start.subrange(
                position + k,
                start.len() as int,
            ),
            left@ == start.subrange(position as int, position + k),
        decreases removed - k,
    {
        let gone = connectors.remove(position);
        proof {
            assert(gone == start[position + k]);
        }
        left.push(gone);
        proof {
            assert(left@ =~= start.subrange(position as int, position + k + 1));
            assert(connectors@ =~= start.subrange(0, position as int) + start.subrange(
                position + k + 1,
                start.len() as int,
            ));
        }
        k = k + 1;
    }
    let mut added = added;
    let ghost new_ones = added@;
    let mut j: usize = 0;
    let n = added.len();
    let mut reversed: Vec<String> = Vec::new();
    while added.len() > 0
        invariant
            reversed@.len() + added@.len() == n,
            n == new_ones.len(),
            added@ == new_ones.subrange(0, added@.len() as int),
            forall|t: int| 0 <= t < reversed@.len() ==> #[trigger] reversed@[t] == new_ones[n - 1 - t],
        decreases added.len(),
    {
        let c = added.pop().unwrap();
        reversed.push(c);
    }
    while reversed.len() > 0
        invariant
            reversed@.len() + j == n,
            n == new_ones.len(),
            position + removed <= start.len(),
            forall|t: int| 0 <= t < reversed@.len() ==> #[trigger] reversed@[t] == new_ones[n - 1 - t],
            connectors@ == start.subrange(0, position as int) + new_ones.subrange(0, j as int)
                + start.subrange(position + removed, start.len() as int),
        decreases reversed.len(),
    {
        let c = reversed.pop().unwrap();
        proof {
            assert(c == new_ones[j as int]);
        }
        let len = connectors.len();
        proof {
            assert(position + j <= len);
        }
        connectors.insert(position + j, c);
        proof {
            assert(connectors@ =~= start.subrange(0, position as int) + new_ones.subrange(0, j + 1)
                + start.subrange(position + removed, start.len() as int));
        }
        j = j + 1;
    }
    proof {
        assert(new_ones.subrange(0, n as int) =~= new_ones);
    }
    left
}

} // verus!
