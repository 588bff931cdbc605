//! The parking primitive of the blocking driver: the flag of a binary
//! semaphore.  The thread that owns the flag keeps it behind a lock and waits
//! on a condition variable while `park` tells it to.
use vstd::prelude::*;

verus! {

/// The flag after a wake signal: set, whatever it was.
pub open spec fn signalled(flag: bool) -> bool {
    true
}

/// What an attempt to park finds, and the flag it leaves: the thread goes on
/// exactly if a signal was recorded, and the signal is used up.
pub open spec fn consumed(flag: bool) -> (bool, bool) {
    (flag, false)
}

/// Records whether a wake signal is waiting for the parked thread.
pub struct Parker {
    resumable: bool,
}

impl Parker {
    /// Whether a wake signal is recorded.
    pub closed spec fn view(&self) -> bool {
        self.resumable
    }

    /// A parker with no signal recorded.
    pub fn new() -> (parker: Parker)
        ensures
            !parker@,
    {
        Parker { resumable: false }
    }

    /// Tries to go on.  Returns `true` if a signal was recorded, and uses it
    /// up; returns `false` if the thread has to wait for a signal and try
    /// again.
    pub fn park(&mut self) -> (resumed: bool)
        ensures
            (resumed, final(self)@) == consumed(old(self)@),
    {
        let resumed = self.resumable;
        self.resumable = false;
        resumed
    }

    /// Records a wake signal.  The caller then notifies the waiting thread.
    pub fn unpark(&mut self)
        ensures
            final(self)@ == signalled(old(self)@),
    {
        self.resumable = true;
    }
}

impl Default for Parker {
    fn default() -> (parker: Parker)
        ensures
            !parker@,
    {
        Parker::new()
    }
}

/// A wake signal that arrives before the thread parks is not lost: the next
/// attempt to park goes on at once.
pub proof fn lemma_signal_is_not_lost(flag: bool)
    ensures
        consumed(signalled(flag)).0,
{
}

/// Signalling twice is signalling once: the second signal changes nothing.
pub proof fn lemma_signal_is_idempotent(flag: bool)
    ensures
        signalled(signalled(flag)) == signalled(flag),
{
}

/// One signal lets the thread go on once: after it has gone on, it waits
/// until the next signal.
pub proof fn lemma_signal_resumes_once(flag: bool)
    ensures
        !consumed(consumed(flag).1).0,
{
}

} // verus!
