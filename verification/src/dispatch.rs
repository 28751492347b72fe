//! The one-time installed channel through which the UI's commands reach a
//! service.

use vstd::prelude::*;

verus! {

/// Holds the sending end of a service's command channel once the service
/// has installed it. The first installation stays; a later one is refused.
#[derive(Debug)]
pub struct CommandChannel<S> {
    sender: Option<S>,
}

impl<S> CommandChannel<S> {
    /// The installed sender, if the service has started.
    pub closed spec fn installed(&self) -> Option<S> {
        self.sender
    }

    /// No sender installed yet.
    pub fn new() -> (c: Self)
        ensures
            c.installed() is None,
    {
        CommandChannel { sender: None }
    }

    /// Installs the command sender; called once when the service starts.
    ///
    /// Returns the sender back as `Err` if one is already installed (e.g.
    /// the service was somehow started twice); the first one stays.
    pub fn install(&mut self, sender: S) -> (r: Result<(), S>)
        ensures
            old(self).installed() is None ==> r is Ok && final(self).installed() == Some(sender),
            old(self).installed() is Some ==> r == Err::<(), S>(sender) && final(self).installed()
                == old(self).installed(),
    {
        if self.sender.is_some() {
            Err(sender)
        } else {
            self.sender = Some(sender);
            Ok(())
        }
    }

    /// Where to send a command: the installed sender, or nothing when the
    /// service has not started (the command is then dropped).
    pub fn target(&self) -> (s: Option<&S>)
        ensures
            match s {
                Some(t) => self.installed() == Some(*t),
                None => self.installed() is None,
            },
    {
        match &self.sender {
            Some(t) => Some(t),
            None => None,
        }
    }
}

} // verus!
