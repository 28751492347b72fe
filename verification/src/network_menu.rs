//! The network menu's decisions: what each of the user's actions and each
//! service update does to the menu, and which command it sends.

use vstd::prelude::*;

use crate::network::commands::NetworkCommand;
use crate::network::events::{ConnectFailureReason, NetworkEvent};
use crate::network::state::{AccessPointSummary, NetworkInfo, SpecificNetworkInfo, WifiScanState};
use crate::network::types::ApSecurity;
use crate::rows::{RowOp, is_stale, plan_rows, row_plan};
use crate::text::same_text;

verus! {

/// The network the password prompt asks about.
#[derive(Debug, Clone)]
pub struct PasswordPrompt {
    pub ssid: String,
    pub security: ApSecurity,
}

/// What the network menu holds besides its widgets.
#[derive(Debug)]
pub struct NetworkMenuModel {
    pub network_state: NetworkInfo,
    pub scan_state: WifiScanState,
    pub password_prompt: Option<PasswordPrompt>,
    pub connect_error: Option<String>,
    /// Whether the menu's containing window is currently open. Gates the
    /// periodic rescan so the radio is not poked while nobody's looking.
    pub is_open: bool,
}

/// What reaches the network menu.
#[derive(Debug)]
pub enum NetworkMenuMsg {
    ToggleWifi(bool),
    Rescan,
    Disconnect,
    ApClicked(AccessPointSummary),
    ForgetClicked(AccessPointSummary),
    PasswordSubmitted(String),
    CancelPassword,
    UpdateState(NetworkInfo),
    UpdateScanState(WifiScanState),
    ConnectionEvent(NetworkEvent),
    /// Sent by the owning tile when its menu window opens or closes.
    SetOpen(bool),
    /// A periodic tick requesting a rescan while open.
    PeriodicRescan,
}

/// The error shown after a failed connection attempt.
pub open spec fn failure_text(ssid: Seq<char>, reason: ConnectFailureReason) -> Seq<char> {
    match reason {
        ConnectFailureReason::WrongPassword => "Wrong password for "@ + ssid,
        ConnectFailureReason::Other => "Couldn't connect to "@ + ssid,
    }
}

/// The security of the first listed access point with this SSID.
pub open spec fn listed_security(aps: Seq<AccessPointSummary>, ssid: Seq<char>) -> Option<
    ApSecurity,
>
    decreases aps.len(),
{
    if aps.len() == 0 {
        None
    } else {
        match listed_security(aps.drop_last(), ssid) {
            Some(s) => Some(s),
            None => if aps.last().ssid@ == ssid {
                Some(aps.last().security)
            } else {
                None
            },
        }
    }
}

fn find_security(aps: &Vec<AccessPointSummary>, ssid: &str) -> (s: Option<ApSecurity>)
    ensures
        s == listed_security(aps@, ssid@),
{
    let mut i: usize = 0;
    while i < aps.len()
        invariant
            i <= aps@.len(),
            listed_security(aps@.subrange(0, i as int), ssid@) is None,
        decreases aps.len() - i,
    {
        proof {
            assert(aps@.subrange(0, i + 1).drop_last() =~= aps@.subrange(0, i as int));
        }
        if same_text(aps[i].ssid.as_str(), ssid) {
            proof {
                lemma_listed_security_prefix(aps@, i + 1, ssid@);
            }
            return Some(aps[i].security);
        }
        i = i + 1;
    }
    proof {
        assert(aps@.subrange(0, i as int) =~= aps@);
    }
    None
}

proof fn lemma_listed_security_prefix(aps: Seq<AccessPointSummary>, k: int, ssid: Seq<char>)
    requires
        0 <= k <= aps.len(),
        listed_security(aps.subrange(0, k), ssid) is Some,
    ensures
        listed_security(aps, ssid) == listed_security(aps.subrange(0, k), ssid),
    decreases aps.len() - k,
{
    if k < aps.len() {
        assert(aps.subrange(0, k + 1).drop_last() =~= aps.subrange(0, k));
        lemma_listed_security_prefix(aps, k + 1, ssid);
    } else {
        assert(aps.subrange(0, k) =~= aps);
    }
}

fn failure_message(ssid: &str, reason: ConnectFailureReason) -> (text: String)
    ensures
        text@ == failure_text(ssid@, reason),
{
    let mut text = match reason {
        ConnectFailureReason::WrongPassword => "Wrong password for ".to_owned(),
        ConnectFailureReason::Other => "Couldn't connect to ".to_owned(),
    };
    text.append(ssid);
    text
}

impl NetworkMenuModel {
    /// A closed menu with nothing to show yet.
    pub fn new(network_state: NetworkInfo, scan_state: WifiScanState) -> (m: Self)
        ensures
            m.network_state == network_state,
            m.scan_state == scan_state,
            m.password_prompt is None,
            m.connect_error is None,
            !m.is_open,
    {
        NetworkMenuModel {
            network_state,
            scan_state,
            password_prompt: None,
            connect_error: None,
            is_open: false,
        }
    }

    /// Applies a message to the menu and returns the command, if any, to
    /// send to the network service.
    ///
    /// Clicking a network clears the error; the active network needs
    /// nothing, a network that needs a password opens the prompt, and any
    /// other connects at once. A submitted password connects to the
    /// prompt's network and closes the prompt. A failure shows an error and,
    /// for a wrong password, reopens the prompt for a network still listed.
    /// Rescans are sent on request, when the menu opens, and on the
    /// periodic tick while it is open.
    pub fn update(&mut self, msg: NetworkMenuMsg) -> (command: Option<NetworkCommand>)
        ensures
            match msg {
                NetworkMenuMsg::UpdateState(state) => {
                    &&& final(self).network_state == state
                    &&& final(self).scan_state == old(self).scan_state
                    &&& final(self).password_prompt == old(self).password_prompt
                    &&& final(self).connect_error == old(self).connect_error
                    &&& final(self).is_open == old(self).is_open
                    &&& command is None
                },
                NetworkMenuMsg::UpdateScanState(state) => {
                    &&& final(self).scan_state == state
                    &&& final(self).network_state == old(self).network_state
                    &&& final(self).password_prompt == old(self).password_prompt
                    &&& final(self).connect_error == old(self).connect_error
                    &&& final(self).is_open == old(self).is_open
                    &&& command is None
                },
                NetworkMenuMsg::ToggleWifi(on) => *final(self) == *old(self) && command == Some(
                    NetworkCommand::SetWifiEnabled(on),
                ),
                NetworkMenuMsg::Rescan => *final(self) == *old(self) && command == Some(
                    NetworkCommand::Scan,
                ),
                NetworkMenuMsg::Disconnect => *final(self) == *old(self) && command == Some(
                    NetworkCommand::Disconnect,
                ),
                NetworkMenuMsg::SetOpen(open) => {
                    &&& final(self).is_open == open
                    &&& final(self).network_state == old(self).network_state
                    &&& final(self).scan_state == old(self).scan_state
                    &&& final(self).password_prompt == old(self).password_prompt
                    &&& final(self).connect_error == old(self).connect_error
                    &&& command == if open {
                        Some(NetworkCommand::Scan)
                    } else {
                        None
                    }
                },
                NetworkMenuMsg::PeriodicRescan => *final(self) == *old(self) && command == if old(
                    self,
                ).is_open {
                    Some(NetworkCommand::Scan)
                } else {
                    None
                },
                NetworkMenuMsg::ApClicked(summary) => {
                    &&& final(self).connect_error is None
                    &&& final(self).network_state == old(self).network_state
                    &&& final(self).scan_state == old(self).scan_state
                    &&& final(self).is_open == old(self).is_open
                    &&& if summary.is_active {
                        final(self).password_prompt == old(self).password_prompt && command is None
                    } else if (summary.security is Wep || summary.security is Psk
                        || summary.security is Sae) && summary.saved_connection is None {
                        &&& final(self).password_prompt == Some(
                            PasswordPrompt { ssid: summary.ssid, security: summary.security },
                        )
                        &&& command is None
                    } else {
                        &&& final(self).password_prompt == old(self).password_prompt
                        &&& command == Some(
                            NetworkCommand::Connect {
                                ssid: summary.ssid,
                                security: summary.security,
                                password: None,
                            },
                        )
                    }
                },
                NetworkMenuMsg::ForgetClicked(summary) => *final(self) == *old(self) && command
                    == match summary.saved_connection {
                    Some(path) => Some(NetworkCommand::Forget(path)),
                    None => None,
                },
                NetworkMenuMsg::PasswordSubmitted(password) => {
                    &&& final(self).password_prompt is None
                    &&& final(self).network_state == old(self).network_state
                    &&& final(self).scan_state == old(self).scan_state
                    &&& final(self).connect_error == old(self).connect_error
                    &&& final(self).is_open == old(self).is_open
                    &&& command == match old(self).password_prompt {
                        Some(p) => Some(
                            NetworkCommand::Connect {
                                ssid: p.ssid,
                                security: p.security,
                                password: Some(password),
                            },
                        ),
                        None => None,
                    }
                },
                NetworkMenuMsg::CancelPassword => {
                    &&& final(self).password_prompt is None
                    &&& final(self).connect_error is None
                    &&& final(self).network_state == old(self).network_state
                    &&& final(self).scan_state == old(self).scan_state
                    &&& final(self).is_open == old(self).is_open
                    &&& command is None
                },
                NetworkMenuMsg::ConnectionEvent(event) => {
                    &&& final(self).network_state == old(self).network_state
                    &&& final(self).scan_state == old(self).scan_state
                    &&& final(self).is_open == old(self).is_open
                    &&& command is None
                    &&& match event {
                        NetworkEvent::ConnectionSucceeded { .. } => {
                            &&& final(self).password_prompt is None
                            &&& final(self).connect_error is None
                        },
                        NetworkEvent::ConnectionFailed { ssid, reason } => {
                            &&& final(self).connect_error matches Some(e) && e@ == failure_text(
                                ssid@,
                                reason,
                            )
                            &&& final(self).password_prompt == if reason
                                == ConnectFailureReason::WrongPassword {
                                match listed_security(old(self).scan_state.access_points@, ssid@) {
                                    Some(security) => Some(PasswordPrompt { ssid, security }),
                                    None => old(self).password_prompt,
                                }
                            } else {
                                old(self).password_prompt
                            }
                        },
                    }
                },
            },
    {
        match msg {
            NetworkMenuMsg::UpdateState(state) => {
                self.network_state = state;
                None
            },
            NetworkMenuMsg::UpdateScanState(state) => {
                self.scan_state = state;
                None
            },
            NetworkMenuMsg::ToggleWifi(enabled) => Some(NetworkCommand::SetWifiEnabled(enabled)),
            NetworkMenuMsg::Rescan => Some(NetworkCommand::Scan),
            NetworkMenuMsg::SetOpen(open) => {
                self.is_open = open;
                if open {
                    // fetch fresh results right away instead of waiting for
                    // the next periodic tick
                    Some(NetworkCommand::Scan)
                } else {
                    None
                }
            },
            NetworkMenuMsg::PeriodicRescan => {
                if self.is_open {
                    Some(NetworkCommand::Scan)
                } else {
                    None
                }
            },
            NetworkMenuMsg::Disconnect => Some(NetworkCommand::Disconnect),
            NetworkMenuMsg::ApClicked(summary) => {
                self.connect_error = None;
                if summary.is_active {
                    // already connected to this network; the Disconnect
                    // button handles leaving it
                    None
                } else if summary.needs_password() {
                    self.password_prompt = Some(
                        PasswordPrompt { ssid: summary.ssid, security: summary.security },
                    );
                    None
                } else {
                    Some(
                        NetworkCommand::Connect {
                            ssid: summary.ssid,
                            security: summary.security,
                            password: None,
                        },
                    )
                }
            },
            NetworkMenuMsg::ForgetClicked(summary) => match summary.saved_connection {
                Some(path) => Some(NetworkCommand::Forget(path)),
                None => None,
            },
            NetworkMenuMsg::PasswordSubmitted(password) => {
                let prompt = self.password_prompt.take();
                match prompt {
                    Some(p) => Some(
                        NetworkCommand::Connect {
                            ssid: p.ssid,
                            security: p.security,
                            password: Some(password),
                        },
                    ),
                    None => None,
                }
            },
            NetworkMenuMsg::CancelPassword => {
                self.password_prompt = None;
                self.connect_error = None;
                None
            },
            NetworkMenuMsg::ConnectionEvent(event) => {
                match event {
                    NetworkEvent::ConnectionSucceeded { ssid } => {
                        self.password_prompt = None;
                        self.connect_error = None;
                    },
                    NetworkEvent::ConnectionFailed { ssid, reason } => {
                        self.connect_error = Some(failure_message(ssid.as_str(), reason));
                        // reopen the password prompt so the user can retry,
                        // rather than leaving them nowhere after a wrong
                        // password
                        if reason == ConnectFailureReason::WrongPassword {
                            let security = find_security(
                                &self.scan_state.access_points,
                                ssid.as_str(),
                            );
                            match security {
                                Some(security) => {
                                    self.password_prompt = Some(PasswordPrompt { ssid, security });
                                },
                                None => {},
                            }
                        }
                    },
                }
                None
            },
        }
    }
}

/// The line naming the wifi network the shell is connected to, shown only
/// while connected over wifi.
pub fn connected_label(info: &NetworkInfo) -> (label: Option<String>)
    ensures
        match info.specific_info {
            Some(SpecificNetworkInfo::WiFi { wifi_ssid, .. }) => label matches Some(l) && l@
                == "Connected to "@ + wifi_ssid@,
            _ => label is None,
        },
{
    match info.wifi_ssid() {
        Some(ssid) => {
            let mut label = "Connected to ".to_owned();
            label.append(ssid.as_str());
            Some(label)
        },
        None => None,
    }
}

/// The label above the password entry.
pub fn password_label(prompt: &PasswordPrompt) -> (label: String)
    ensures
        label@ == "Enter password for "@ + prompt.ssid@,
{
    let mut label = "Enter password for ".to_owned();
    label.append(prompt.ssid.as_str());
    label
}

/// The status shown on an access point's row.
pub open spec fn row_status_text(summary: AccessPointSummary) -> Seq<char> {
    if summary.is_active {
        "Connected"@
    } else if summary.saved_connection is Some {
        "Saved"@
    } else if !(summary.security is Open) {
        "Secured"@
    } else {
        ""@
    }
}

/// The status shown on an access point's row: connected, saved, secured,
/// or nothing for an open network.
pub fn row_status(summary: &AccessPointSummary) -> (status: &'static str)
    ensures
        status@ == row_status_text(*summary),
{
    if summary.is_active {
        "Connected"
    } else if summary.is_saved() {
        "Saved"
    } else if !summary.security.is_open() {
        "Secured"
    } else {
        ""
    }
}

/// The key of an SSID among the scan results: the index of the first
/// result with that SSID, or the number of results when none has it.
pub open spec fn ssid_key(aps: Seq<AccessPointSummary>, ssid: Seq<char>) -> nat
    decreases aps.len(),
{
    if aps.len() == 0 {
        0
    } else if ssid_key(aps.drop_last(), ssid) < aps.len() - 1 {
        ssid_key(aps.drop_last(), ssid)
    } else if aps.last().ssid@ == ssid {
        (aps.len() - 1) as nat
    } else {
        aps.len()
    }
}

fn key_of_ssid(aps: &Vec<AccessPointSummary>, ssid: &str) -> (k: u64)
    requires
        aps@.len() < u64::MAX,
    ensures
        k == ssid_key(aps@, ssid@),
{
    let mut i: usize = 0;
    while i < aps.len()
        invariant
            i <= aps@.len(),
            aps@.len() < u64::MAX,
            ssid_key(aps@.subrange(0, i as int), ssid@) == i,
        decreases aps.len() - i,
    {
        proof {
            assert(aps@.subrange(0, i + 1).drop_last() =~= aps@.subrange(0, i as int));
        }
        if same_text(aps[i].ssid.as_str(), ssid) {
            proof {
                lemma_ssid_key_found(aps@, i as int + 1, ssid@);
            }
            return i as u64;
        }
        i = i + 1;
    }
    proof {
        assert(aps@.subrange(0, i as int) =~= aps@);
    }
    i as u64
}

proof fn lemma_ssid_key_found(aps: Seq<AccessPointSummary>, k: int, ssid: Seq<char>)
    requires
        0 <= k <= aps.len(),
        ssid_key(aps.subrange(0, k), ssid) < k,
    ensures
        ssid_key(aps, ssid) == ssid_key(aps.subrange(0, k), ssid),
    decreases aps.len() - k,
{
    if k < aps.len() {
        assert(aps.subrange(0, k + 1).drop_last() =~= aps.subrange(0, k));
        lemma_ssid_key_found(aps, k + 1, ssid);
    } else {
        assert(aps.subrange(0, k) =~= aps);
    }
}

/// The key of an SSID is the index of the first result with it, or the
/// number of results when none has it.
proof fn lemma_ssid_key(aps: Seq<AccessPointSummary>, ssid: Seq<char>)
    ensures
        ssid_key(aps, ssid) <= aps.len(),
        ssid_key(aps, ssid) < aps.len() ==> aps[ssid_key(aps, ssid) as int].ssid@ == ssid,
        forall|i: int| 0 <= i < ssid_key(aps, ssid) ==> #[trigger] aps[i].ssid@ != ssid,
    decreases aps.len(),
{
    if aps.len() > 0 {
        lemma_ssid_key(aps.drop_last(), ssid);
        assert forall|i: int| 0 <= i < ssid_key(aps, ssid) implies #[trigger] aps[i].ssid@ != ssid by {
            if i < aps.len() - 1 {
                assert(aps.drop_last()[i] == aps[i]);
            }
        }
        if ssid_key(aps.drop_last(), ssid) < aps.len() - 1 {
            assert(aps.drop_last()[ssid_key(aps.drop_last(), ssid) as int] == aps[ssid_key(
                aps.drop_last(),
                ssid,
            ) as int]);
        }
    }
}

/// Rows and scan results are matched by SSID: a row goes exactly when no
/// result has its SSID, and a row's key is a result's key exactly when
/// they share the SSID.
pub proof fn lemma_ap_rows_match_by_ssid(rows: Seq<String>, aps: Seq<AccessPointSummary>)
    requires
        aps.len() < u64::MAX,
    ensures
        forall|i: int|
            0 <= i < rows.len() ==> (is_stale(#[trigger] row_keys(rows, aps)[i], result_keys(aps))
                <==> !exists|j: int| 0 <= j < aps.len() && aps[j].ssid@ == rows[i]@),
        forall|i: int, j: int|
            0 <= i < rows.len() && 0 <= j < aps.len() ==> (#[trigger] row_keys(rows, aps)[i] == Some(
                #[trigger] result_keys(aps)[j],
            ) <==> rows[i]@ == aps[j].ssid@),
{
    assert forall|i: int| 0 <= i < rows.len() implies (is_stale(
        #[trigger] row_keys(rows, aps)[i],
        result_keys(aps),
    ) <==> !exists|j: int| 0 <= j < aps.len() && aps[j].ssid@ == rows[i]@) by {
        let s = rows[i]@;
        lemma_ssid_key(aps, s);
        let k = ssid_key(aps, s);
        if exists|j: int| 0 <= j < aps.len() && aps[j].ssid@ == s {
            let j = choose|j: int| 0 <= j < aps.len() && aps[j].ssid@ == s;
            assert(k <= j);
            lemma_ssid_key(aps, aps[k as int].ssid@);
            assert(result_keys(aps)[k as int] == k as u64);
            assert(result_keys(aps).contains(k as u64));
        } else {
            assert forall|j: int| 0 <= j < result_keys(aps).len() implies result_keys(aps)[j] != k as u64 by {
                lemma_ssid_key(aps, aps[j].ssid@);
            }
        }
    }
    assert forall|i: int, j: int| 0 <= i < rows.len() && 0 <= j < aps.len() implies (
    #[trigger] row_keys(rows, aps)[i] == Some(#[trigger] result_keys(aps)[j]) <==> rows[i]@
        == aps[j].ssid@) by {
        lemma_ssid_key(aps, rows[i]@);
        lemma_ssid_key(aps, aps[j].ssid@);
    }
}

/// The keys of rows showing these SSIDs, among the scan results.
pub open spec fn row_keys(rows: Seq<String>, aps: Seq<AccessPointSummary>) -> Seq<Option<u64>> {
    rows.map_values(|ssid: String| Some(ssid_key(aps, ssid@) as u64))
}

/// The keys of the scan results themselves.
pub open spec fn result_keys(aps: Seq<AccessPointSummary>) -> Seq<u64> {
    aps.map_values(|ap: AccessPointSummary| ssid_key(aps, ap.ssid@) as u64)
}

/// Plans how to bring the access point rows (given by the SSIDs they show)
/// up to date with new scan results: rows of networks no longer in range
/// go, rows of networks still in range are updated in place, and new
/// networks get a row. Rows and results are matched by SSID.
pub fn plan_ap_rows(rows: &Vec<String>, aps: &Vec<AccessPointSummary>) -> (plan: Vec<RowOp>)
    requires
        aps@.len() < u64::MAX,
    ensures
        plan@ == row_plan(row_keys(rows@, aps@), result_keys(aps@)),
{
    let mut current: Vec<Option<u64>> = Vec::new();
    let mut i: usize = 0;
    while i < rows.len()
        invariant
            i <= rows@.len(),
            aps@.len() < u64::MAX,
            current@ == row_keys(rows@.subrange(0, i as int), aps@),
        decreases rows.len() - i,
    {
        let k = key_of_ssid(aps, rows[i].as_str());
        current.push(Some(k));
        proof {
            assert(current@ =~= row_keys(rows@.subrange(0, i + 1), aps@));
        }
        i = i + 1;
    }
    proof {
        assert(rows@.subrange(0, i as int) =~= rows@);
    }
    let mut wanted: Vec<u64> = Vec::new();
    let mut j: usize = 0;
    while j < aps.len()
        invariant
            j <= aps@.len(),
            aps@.len() < u64::MAX,
            wanted@ == result_keys(aps@).subrange(0, j as int),
        decreases aps.len() - j,
    {
        let k = key_of_ssid(aps, aps[j].ssid.as_str());
        wanted.push(k);
        proof {
            assert(wanted@ =~= result_keys(aps@).subrange(0, j + 1));
        }
        j = j + 1;
    }
    proof {
        assert(result_keys(aps@).subrange(0, j as int) =~= result_keys(aps@));
    }
    plan_rows(&current, &wanted)
}

} // verus!
