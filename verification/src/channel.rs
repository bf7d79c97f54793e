//! Status Channel.
//!
//! A one-shot, single-producer single-consumer handoff: the background
//! install operation delivers exactly one outcome, and the presentation
//! loop polls for it without blocking. This module models that primitive;
//! the producer side of the real handoff runs outside the crate and obeys
//! the same discipline.

use vstd::prelude::*;
use crate::installer::InstallOutcome;

verus! {

/// A one-shot slot for a single [`InstallOutcome`].
pub struct StatusChannel {
    slot: Option<InstallOutcome>,
    used: bool,
}

impl StatusChannel {
    /// The message now waiting to be consumed, if any.
    pub closed spec fn pending(self) -> Option<InstallOutcome> {
        self.slot
    }

    /// Whether the producer has already delivered its one message.
    pub closed spec fn sent(self) -> bool {
        self.used
    }

    /// A fresh channel: nothing sent, nothing waiting.
    pub fn new() -> (r: StatusChannel)
        ensures
            !r.sent(),
            r.pending() is None,
    {
        StatusChannel { slot: None, used: false }
    }

    /// Deliver the operation's single outcome. A channel carries at most
    /// one message over its lifetime, so sending requires a channel on
    /// which nothing was sent before.
    pub fn send(&mut self, outcome: InstallOutcome)
        requires
            !old(self).sent(),
        ensures
            final(self).sent(),
            final(self).pending() == Some(outcome),
    {
        self.used = true;
        self.slot = Some(outcome);
    }

    /// Non-blocking poll: consume and return the waiting message, if any.
    pub fn try_recv(&mut self) -> (r: Option<InstallOutcome>)
        ensures
            r == old(self).pending(),
            final(self).pending() is None,
            final(self).sent() == old(self).sent(),
    {
        self.slot.take()
    }
}

} // verus!
