//! The pairing agent: one pairing prompt at a time, answered by the user or
//! cancelled.

use vstd::prelude::*;

use crate::bluetooth::state::PairingPrompt;

verus! {

/// The user's response to whatever pairing request is currently pending.
///
/// Each request expects a specific variant back; a mismatched one (e.g. the
/// UI sending `Confirm` for a request that expected `Text`) is treated the
/// same as a rejection.
#[derive(Debug, Clone)]
pub enum PairingReply {
    Text(String),
    Number(u32),
    Confirm,
}

/// What a PIN-code request gets from a reply: the PIN, when the reply
/// carries text; `None` (a rejection) for any other reply, or when the
/// prompt was dropped without one.
pub fn pin_code_reply(reply: Option<PairingReply>) -> (pin: Option<String>)
    ensures
        match reply {
            Some(PairingReply::Text(t)) => pin == Some(t),
            _ => pin is None,
        },
{
    match reply {
        Some(PairingReply::Text(pin)) => Some(pin),
        _ => None,
    }
}

/// What a passkey request gets from a reply: the number, when the reply
/// carries one; otherwise a rejection.
pub fn passkey_reply(reply: Option<PairingReply>) -> (passkey: Option<u32>)
    ensures
        match reply {
            Some(PairingReply::Number(n)) => passkey == Some(n),
            _ => passkey is None,
        },
{
    match reply {
        Some(PairingReply::Number(n)) => Some(n),
        _ => None,
    }
}

/// Whether a confirmation or authorization request is granted: only an
/// explicit `Confirm` grants it.
pub fn confirmation_reply(reply: Option<PairingReply>) -> (granted: bool)
    ensures
        granted == (reply matches Some(PairingReply::Confirm)),
{
    match reply {
        Some(PairingReply::Confirm) => true,
        _ => false,
    }
}

/// The pairing exchange in progress: the channel on which the waiting
/// request takes its reply, and the prompt shown to the user.
///
/// Only one pairing prompt is ever active at a time, so a single slot
/// suffices.
#[derive(Debug)]
pub struct PairingSlot<S> {
    pending: Option<S>,
    prompt: Option<PairingPrompt>,
}

impl<S> PairingSlot<S> {
    /// The reply channel of the waiting request, if one waits.
    pub closed spec fn pending_reply(&self) -> Option<S> {
        self.pending
    }

    /// The prompt shown to the user, if any.
    pub closed spec fn shown_prompt(&self) -> Option<PairingPrompt> {
        self.prompt
    }

    /// No request waiting, nothing shown.
    pub fn new() -> (slot: Self)
        ensures
            slot.pending_reply() is None,
            slot.shown_prompt() is None,
    {
        PairingSlot { pending: None, prompt: None }
    }

    /// Publishes a prompt that awaits a reply on `reply_to`, replacing any
    /// earlier one.
    pub fn ask(&mut self, reply_to: S, prompt: PairingPrompt)
        ensures
            final(self).pending_reply() == Some(reply_to),
            final(self).shown_prompt() == Some(prompt),
    {
        self.pending = Some(reply_to);
        self.prompt = Some(prompt);
    }

    /// Publishes a prompt that only displays a code; nothing is collected
    /// back.
    pub fn show(&mut self, prompt: PairingPrompt)
        ensures
            final(self).pending_reply() == old(self).pending_reply(),
            final(self).shown_prompt() == Some(prompt),
    {
        self.prompt = Some(prompt);
    }

    /// The request has been answered or dropped: the prompt goes away.
    pub fn clear_prompt(&mut self)
        ensures
            final(self).pending_reply() == old(self).pending_reply(),
            final(self).shown_prompt() is None,
    {
        self.prompt = None;
    }

    /// Responds to the current pairing prompt, if any: hands out the
    /// waiting request's reply channel, which is then no longer pending.
    pub fn respond(&mut self) -> (reply_to: Option<S>)
        ensures
            reply_to == old(self).pending_reply(),
            final(self).pending_reply() is None,
            final(self).shown_prompt() == old(self).shown_prompt(),
    {
        let reply_to = self.pending.take();
        reply_to
    }

    /// Cancels the current pairing prompt, if any, as a rejection: the
    /// reply channel is dropped unanswered and the prompt goes away.
    pub fn cancel(&mut self) -> (dropped: Option<S>)
        ensures
            dropped == old(self).pending_reply(),
            final(self).pending_reply() is None,
            final(self).shown_prompt() is None,
    {
        let dropped = self.pending.take();
        self.prompt = None;
        dropped
    }
}

} // verus!
