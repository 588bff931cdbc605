//! Three timers with one contract and different ways of being woken.
//!
//! Instants and durations are nanoseconds on the clock of the runtime, which
//! the caller reads.  A timer fixes its deadline when it is made, and
//! completes at the first poll that finds the deadline reached.
use crate::step::{Step, Wakeup};
use vstd::prelude::*;

verus! {

/// The time left until `deadline`, zero once it is reached.
pub open spec fn remaining(deadline: u64, now: u64) -> u64 {
    if now >= deadline {
        0
    } else {
        (deadline - now) as u64
    }
}

/// A poll of the thread-per-timer strategy: while time is left, a thread of
/// its own sleeps for what is left and then wakes the task.
pub open spec fn sleeper_step(deadline: u64, now: u64) -> Step<()> {
    if remaining(deadline, now) == 0 {
        Step::Completed(())
    } else {
        Step::Pending(Wakeup::After(remaining(deadline, now)))
    }
}

/// A poll of the busy-respin strategy: while time is left, the task is woken
/// at once and polls again.
pub open spec fn spin_step(deadline: u64, now: u64) -> Step<()> {
    if remaining(deadline, now) == 0 {
        Step::Completed(())
    } else {
        Step::Pending(Wakeup::Now)
    }
}

/// A poll of the reactor-managed strategy: while time is left, the timer
/// waits for the timeout service, with which it registers at its first
/// pending poll and never again.
pub open spec fn reactor_step(deadline: u64, registered: bool, now: u64) -> Step<()> {
    if remaining(deadline, now) == 0 {
        Step::Completed(())
    } else if registered {
        Step::Pending(Wakeup::Armed)
    } else {
        Step::Pending(Wakeup::AtDeadline(deadline))
    }
}

/// What the three strategies share: a deadline, and a poll that completes
/// exactly when the deadline is reached.
pub trait Timer {
    /// The instant at which the timer is due.
    spec fn deadline(&self) -> u64;

    /// Polls the timer at the instant `now`.
    fn poll(&mut self, now: u64) -> (step: Step<()>)
        ensures
            step is Completed <==> now >= old(self).deadline(),
            final(self).deadline() == old(self).deadline(),
    ;
}

/// A timer that is woken by a thread of its own.
#[derive(Clone, Debug)]
pub struct Timeout {
    deadline: u64,
}

impl Timeout {
    /// A timer due `duration` after `now`.
    pub fn new(now: u64, duration: u64) -> (timer: Self)
        requires
            now + duration <= u64::MAX,
        ensures
            timer.deadline() == now + duration,
    {
        Timeout { deadline: now + duration }
    }
}

impl Timer for Timeout {
    closed spec fn deadline(&self) -> u64 {
        self.deadline
    }

    fn poll(&mut self, now: u64) -> (step: Step<()>)
        ensures
            step == sleeper_step(old(self).deadline(), now),
    {
        if now >= self.deadline {
            Step::Completed(())
        } else {
            Step::Pending(Wakeup::After(self.deadline - now))
        }
    }
}

/// A timer that keeps its task running until it is due.
#[derive(Clone, Debug)]
pub struct SpinTimeout {
    deadline: u64,
}

impl SpinTimeout {
    /// A timer due `duration` after `now`.
    pub fn new(now: u64, duration: u64) -> (timer: Self)
        requires
            now + duration <= u64::MAX,
        ensures
            timer.deadline() == now + duration,
    {
        SpinTimeout { deadline: now + duration }
    }
}

impl Timer for SpinTimeout {
    closed spec fn deadline(&self) -> u64 {
        self.deadline
    }

    fn poll(&mut self, now: u64) -> (step: Step<()>)
        ensures
            step == spin_step(old(self).deadline(), now),
    {
        if now >= self.deadline {
            Step::Completed(())
        } else {
            Step::Pending(Wakeup::Now)
        }
    }
}

/// A timer that is woken by the timeout service.
#[derive(Clone, Debug)]
pub struct ReactorTimeout {
    deadline: u64,
    registered: bool,
}

impl ReactorTimeout {
    /// A timer due `duration` after `now`, not yet known to the timeout
    /// service.
    pub fn new(now: u64, duration: u64) -> (timer: Self)
        requires
            now + duration <= u64::MAX,
        ensures
            timer.deadline() == now + duration,
            !timer.registered(),
    {
        ReactorTimeout { deadline: now + duration, registered: false }
    }

    /// Whether the timer has asked the timeout service to wake it.
    pub closed spec fn registered(&self) -> bool {
        self.registered
    }
}

impl Timer for ReactorTimeout {
    closed spec fn deadline(&self) -> u64 {
        self.deadline
    }

    fn poll(&mut self, now: u64) -> (step: Step<()>)
        ensures
            step == reactor_step(old(self).deadline(), old(self).registered(), now),
            final(self).registered() == (old(self).registered() || step is Pending),
    {
        if now >= self.deadline {
            Step::Completed(())
        } else if self.registered {
            Step::Pending(Wakeup::Armed)
        } else {
            self.registered = true;
            Step::Pending(Wakeup::AtDeadline(self.deadline))
        }
    }
}

/// No timer completes early: under each strategy, a timer made at `created`
/// for `duration` completes at a poll exactly if at least `duration` has
/// passed since.
pub proof fn lemma_timers_never_complete_early(
    created: u64,
    duration: u64,
    registered: bool,
    now: u64,
)
    requires
        created + duration <= u64::MAX,
    ensures
        sleeper_step((created + duration) as u64, now) is Completed <==> now - created >= duration,
        spin_step((created + duration) as u64, now) is Completed <==> now - created >= duration,
        reactor_step((created + duration) as u64, registered, now) is Completed <==> now - created
            >= duration,
{
}

/// The strategies are interchangeable: polled at the same instant with the
/// same deadline, either all three complete or none does.
pub proof fn lemma_strategies_agree(deadline: u64, registered: bool, now: u64)
    ensures
        sleeper_step(deadline, now) is Completed == spin_step(deadline, now) is Completed,
        spin_step(deadline, now) is Completed == reactor_step(deadline, registered, now)
            is Completed,
{
}

/// The sleeper of the thread-per-timer strategy wakes the task when the
/// timer is due, not before: it sleeps for exactly what is left.
pub proof fn lemma_sleeper_wakes_on_time(deadline: u64, now: u64)
    requires
        now < deadline,
    ensures
        sleeper_step(deadline, now) == Step::<()>::Pending(Wakeup::After((deadline - now) as u64)),
        now + (deadline - now) == deadline,
{
}

} // verus!
