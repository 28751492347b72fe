//! Low-battery alerts: which one is due, given what already fired in the
//! current discharging session.

use vstd::prelude::*;

verus! {

/// The severity of a low-battery alert.
#[derive(Debug, Clone, Copy, PartialEq, Eq, Structural)]
pub enum AlertLevel {
    /// The battery is low (at or below 20%).
    Normal,
    /// The battery is critically low (at or below 10%).
    Critical,
}

/// Tracks which low-battery alerts have already fired in the current
/// discharging session, so each is only triggered once.
#[derive(Debug)]
pub struct AlertState {
    /// Whether the "battery low" (20%) alert has fired this session.
    warn_triggered: bool,
    /// Whether the "battery critical" (10%) alert has fired this session.
    critical_triggered: bool,
}

/// The flags `(warn, critical)` and the alert due after one check, given
/// whether the charge is at or below the low and the critical threshold.
pub open spec fn check_step(warn: bool, critical: bool, low: bool, very_low: bool) -> (
    bool,
    bool,
    Option<AlertLevel>,
) {
    if very_low && !critical {
        (true, true, Some(AlertLevel::Critical))
    } else if low && !warn {
        (true, critical, Some(AlertLevel::Normal))
    } else {
        (warn, critical, None)
    }
}

impl AlertState {
    /// Whether the low alert has fired this session.
    pub closed spec fn warned(&self) -> bool {
        self.warn_triggered
    }

    /// Whether the critical alert has fired this session.
    pub closed spec fn critical_fired(&self) -> bool {
        self.critical_triggered
    }

    pub fn new() -> (s: Self)
        ensures
            !s.warned(),
            !s.critical_fired(),
    {
        AlertState { warn_triggered: false, critical_triggered: false }
    }

    /// Reset alert flags at the start of a new discharging session.
    pub fn reset(&mut self)
        ensures
            !final(self).warned(),
            !final(self).critical_fired(),
    {
        self.warn_triggered = false;
        self.critical_triggered = false;
    }

    /// Decides which low-battery alert is due, if any, and records it.
    ///
    /// `low` and `critical` say whether the charge is at or below the low
    /// (20%) and the critical (10%) threshold. Each alert is given at most
    /// once per discharging session. Critical takes priority, and marks the
    /// low alert as given too.
    pub fn check(&mut self, low: bool, critical: bool) -> (alert: Option<AlertLevel>)
        ensures
            (final(self).warned(), final(self).critical_fired(), alert) == check_step(
                old(self).warned(),
                old(self).critical_fired(),
                low,
                critical,
            ),
    {
        if critical && !self.critical_triggered {
            self.warn_triggered = true;
            self.critical_triggered = true;
            Some(AlertLevel::Critical)
        } else if low && !self.warn_triggered {
            self.warn_triggered = true;
            Some(AlertLevel::Normal)
        } else {
            None
        }
    }
}

/// The flags after a run of checks, starting from `(warn, critical)`.
pub open spec fn flags_after(warn: bool, critical: bool, inputs: Seq<(bool, bool)>) -> (bool, bool)
    decreases inputs.len(),
{
    if inputs.len() == 0 {
        (warn, critical)
    } else {
        let before = flags_after(warn, critical, inputs.drop_last());
        let step = check_step(before.0, before.1, inputs.last().0, inputs.last().1);
        (step.0, step.1)
    }
}

/// The alerts a run of checks gives, one entry per check, starting from
/// `(warn, critical)`.
pub open spec fn alerts_after(warn: bool, critical: bool, inputs: Seq<(bool, bool)>) -> Seq<
    Option<AlertLevel>,
>
    decreases inputs.len(),
{
    if inputs.len() == 0 {
        Seq::empty()
    } else {
        let before = flags_after(warn, critical, inputs.drop_last());
        alerts_after(warn, critical, inputs.drop_last()).push(
            check_step(before.0, before.1, inputs.last().0, inputs.last().1).2,
        )
    }
}

/// How many entries of `alerts` are the given alert.
pub open spec fn times_given(alerts: Seq<Option<AlertLevel>>, level: AlertLevel) -> nat
    decreases alerts.len(),
{
    if alerts.len() == 0 {
        0
    } else {
        times_given(alerts.drop_last(), level) + if alerts.last() == Some(level) {
            1nat
        } else {
            0nat
        }
    }
}

/// Once given, an alert is recorded for the rest of the session, and the
/// critical alert implies the low one.
proof fn lemma_flags_monotone(inputs: Seq<(bool, bool)>)
    ensures
        flags_after(false, false, inputs).1 ==> flags_after(false, false, inputs).0,
        times_given(alerts_after(false, false, inputs), AlertLevel::Critical) == if flags_after(
            false,
            false,
            inputs,
        ).1 {
            1nat
        } else {
            0nat
        },
        times_given(alerts_after(false, false, inputs), AlertLevel::Normal) <= if flags_after(
            false,
            false,
            inputs,
        ).0 {
            1nat
        } else {
            0nat
        },
    decreases inputs.len(),
{
    if inputs.len() > 0 {
        lemma_flags_monotone(inputs.drop_last());
        let given = alerts_after(false, false, inputs);
        assert(given.drop_last() =~= alerts_after(false, false, inputs.drop_last()));
    }
}

/// Within one discharging session (from a fresh or reset state, with no
/// reset in between), each low-battery alert is given at most once, however
/// the charge moves.
pub proof fn lemma_each_alert_at_most_once(inputs: Seq<(bool, bool)>)
    ensures
        times_given(alerts_after(false, false, inputs), AlertLevel::Critical) <= 1,
        times_given(alerts_after(false, false, inputs), AlertLevel::Normal) <= 1,
{
    lemma_flags_monotone(inputs);
}

/// After the critical alert, no further alert comes in the same session.
pub proof fn lemma_nothing_after_critical(warn: bool, low: bool, critical: bool)
    requires
        warn,
    ensures
        check_step(warn, true, low, critical).2 is None,
{
}

/// What a low-battery alert says and sounds like.
#[derive(Debug, Clone)]
pub struct AlertMessage {
    pub summary: &'static str,
    pub body: &'static str,
    /// XDG sound event id.
    pub sound_event: &'static str,
    /// Freedesktop notification urgency: 1 is normal, 2 is critical.
    pub urgency: u8,
}

/// The notification and sound for an alert level.
pub fn alert_message(level: AlertLevel) -> (m: AlertMessage)
    ensures
        m.summary@ == (match level {
            AlertLevel::Critical => "Battery level is critically low"@,
            AlertLevel::Normal => "Battery level is low"@,
        }),
        m.body@ == (match level {
            AlertLevel::Critical => "Connect a charger now to avoid losing unsaved work."@,
            AlertLevel::Normal => "Connect a charger to continue using your device."@,
        }),
        m.sound_event@ == (match level {
            AlertLevel::Critical => "battery-critical"@,
            AlertLevel::Normal => "battery-low"@,
        }),
        m.urgency == (match level {
            AlertLevel::Critical => 2u8,
            AlertLevel::Normal => 1u8,
        }),
{
    match level {
        AlertLevel::Critical => AlertMessage {
            summary: "Battery level is critically low",
            body: "Connect a charger now to avoid losing unsaved work.",
            sound_event: "battery-critical",
            urgency: 2,
        },
        AlertLevel::Normal => AlertMessage {
            summary: "Battery level is low",
            body: "Connect a charger to continue using your device.",
            sound_event: "battery-low",
            urgency: 1,
        },
    }
}

} // verus!
