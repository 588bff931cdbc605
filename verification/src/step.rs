//! What one attempt to make progress comes to.
use crate::io_handler::Interest;
use vstd::prelude::*;

verus! {

/// How a computation that could not finish asks to be polled again.
#[derive(Clone, Copy, Debug, PartialEq, Eq)]
pub enum Wakeup {
    /// Wake the task at once, by reference: it stays runnable and polls again
    /// without waiting for anything.
    Now,
    /// Let a thread of its own sleep for this many nanoseconds and then wake
    /// the task.
    After(u64),
    /// Hand the task's wake handle to the timeout service, to be fired once
    /// this instant has passed.
    AtDeadline(u64),
    /// Hand the task's wake handle to the readiness service, to be fired once
    /// the socket is ready in this direction.
    OnReady(Interest),
    /// Nothing to do: an earlier request still stands.
    Armed,
}

/// The outcome of polling a suspendable computation.
#[derive(Debug, PartialEq, Eq)]
pub enum Step<T> {
    /// The computation has finished with this value and must not be polled
    /// again.
    Completed(T),
    /// The computation is blocked and will be woken as requested.
    Pending(Wakeup),
}

impl<T> Step<T> {
    /// Whether the computation has finished.
    pub fn is_completed(&self) -> (done: bool)
        ensures
            done == (*self is Completed),
    {
        match self {
            Step::Completed(_) => true,
            Step::Pending(_) => false,
        }
    }
}

} // verus!
