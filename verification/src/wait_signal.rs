//! The one-shot completion signal between the native thread and a waiting
//! caller.
//!
//! A waiter polls in short bounded rounds rather than parking forever, so
//! it can interleave other responsibilities and cannot deadlock against a
//! worker that needs its cooperation.  One notification wakes exactly one
//! wait: consuming the flag and setting it are single atomic exchanges.

use vstd::prelude::*;

use core::sync::atomic::AtomicBool;
use core::sync::atomic::Ordering;

verus! {

/// A one-shot signal: set by `notify`, consumed by `wait`.
pub struct WaitSignal {
    state: AtomicBool,
}

impl WaitSignal {
    /// A fresh signal, not yet notified.
    pub fn new() -> WaitSignal {
        WaitSignal { state: AtomicBool::new(false) }
    }

    /// Posts the signal: the next wait that sees it returns at once and
    /// consumes it.
    pub fn notify(&self) {
        self.state.store(true, Ordering::SeqCst);
    }

    /// Waits for the signal in one short polling round: returns as soon
    /// as a notification is consumed, or after a bounded number of polls
    /// so the caller can interleave other work and try again.  Consuming
    /// the flag is a single atomic exchange, so one notification releases
    /// at most one waiter.
    pub fn wait(&self) {
        let mut spins: u32 = 0;
        while spins < 65536
            decreases 65536 - spins,
        {
            if self.state.swap(false, Ordering::SeqCst) {
                return ;
            }
            spins = spins + 1;
        }
    }
}

} // verus!
