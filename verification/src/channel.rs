//! The shutdown signal channel: a single-slot notification that turns an
//! asynchronous interrupt into a pollable event. The interrupt side enqueues
//! at most one notification; the event loop drains it. Enqueueing onto a
//! full slot is silently absorbed — the process is terminating either way —
//! and draining an empty slot is ordinary control flow, not a fault.

use vstd::prelude::*;

verus! {

/// The one-shot shutdown notification slot.
pub struct ShutdownChannel {
    notified: bool,
}

impl ShutdownChannel {
    /// Whether a notification is waiting to be drained.
    pub closed spec fn pending(&self) -> bool {
        self.notified
    }

    /// A fresh channel holds no notification.
    pub fn new() -> (c: ShutdownChannel)
        ensures
            !c.pending(),
    {
        ShutdownChannel { notified: false }
    }

    /// Enqueue the shutdown notification. Never blocks and never fails: on
    /// an already full slot the send is absorbed and the slot stays full.
    pub fn notify(&mut self)
        ensures
            final(self).pending(),
    {
        self.notified = true;
    }

    /// Drain the slot: report whether a notification was pending, and leave
    /// the slot empty either way.
    pub fn try_drain(&mut self) -> (got: bool)
        ensures
            got == old(self).pending(),
            !final(self).pending(),
    {
        let got = self.notified;
        self.notified = false;
        got
    }
}

} // verus!
