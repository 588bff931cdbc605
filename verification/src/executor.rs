//! The blocking driver: polls one root computation until it completes, and
//! parks the calling thread between polls until a wake signal has arrived.
//!
//! The driver here is the record of where that loop stands.  The thread that
//! runs the loop polls when the driver is `Polling`, reports each outcome
//! with `polled`, and after a pending outcome waits until `resume` lets it go
//! on.  Wake handles call `wake`, from any thread and at any time.
use crate::parker::{consumed, signalled, Parker};
use crate::step::Step;
use vstd::prelude::*;

verus! {

/// Where the driver's loop stands.
#[derive(Clone, Copy, Debug, PartialEq, Eq, Structural)]
pub enum Phase {
    /// The computation is to be polled.
    Polling,
    /// The last poll was pending; the thread waits for a wake signal.
    Parked,
    /// The computation has completed; it is never polled again.
    Finished,
}

/// The driver as contracts see it.
pub struct DriverState {
    pub phase: Phase,
    /// Whether a wake signal is recorded and not yet used up.
    pub signal: bool,
}

/// The driver after a poll: a completed poll ends the loop, a pending one
/// parks the thread.  A recorded signal stays recorded.
pub open spec fn after_poll(state: DriverState, completed: bool) -> DriverState {
    DriverState {
        phase: if completed {
            Phase::Finished
        } else {
            Phase::Parked
        },
        signal: state.signal,
    }
}

/// The driver after a wake handle fired: the signal is recorded, the phase
/// is as it was.
pub open spec fn after_wake(state: DriverState) -> DriverState {
    DriverState { phase: state.phase, signal: signalled(state.signal) }
}

/// Whether a parked thread may go on, and the driver after it has asked: it
/// goes on, to poll again, exactly if it is parked and a signal is recorded,
/// and the signal is then used up.  In any other case nothing changes.
pub open spec fn after_resume(state: DriverState) -> (bool, DriverState) {
    if state.phase == Phase::Parked && state.signal {
        (true, DriverState { phase: Phase::Polling, signal: consumed(state.signal).1 })
    } else {
        (false, state)
    }
}

/// The blocking driver of one root computation.
pub struct BlockOn {
    parker: Parker,
    phase: Phase,
}

impl BlockOn {
    /// The driver's phase and signal.
    pub closed spec fn view(&self) -> DriverState {
        DriverState { phase: self.phase, signal: self.parker@ }
    }

    /// A driver about to poll for the first time, with no signal recorded.
    pub fn new() -> (driver: BlockOn)
        ensures
            driver@ == (DriverState { phase: Phase::Polling, signal: false }),
    {
        BlockOn { parker: Parker::new(), phase: Phase::Polling }
    }

    /// Where the loop stands.
    pub fn phase(&self) -> (phase: Phase)
        ensures
            phase == self@.phase,
    {
        self.phase
    }

    /// Takes the outcome of a poll.  A completed computation ends the loop
    /// and its value is handed back; a pending one parks the thread.
    pub fn polled<T>(&mut self, step: Step<T>) -> (value: Option<T>)
        requires
            old(self)@.phase == Phase::Polling,
        ensures
            final(self)@ == after_poll(old(self)@, step is Completed),
            step matches Step::Completed(v) ==> value == Some(v),
            step is Pending ==> value is None,
    {
        match step {
            Step::Completed(v) => {
                self.phase = Phase::Finished;
                Some(v)
            },
            Step::Pending(_) => {
                self.phase = Phase::Parked;
                None
            },
        }
    }

    /// Records a wake signal.  The caller then notifies the driver's thread.
    pub fn wake(&mut self)
        ensures
            final(self)@ == after_wake(old(self)@),
    {
        self.parker.unpark();
    }

    /// Asks whether the parked thread may go on.  `true` sends it back to
    /// poll; on `false` it waits to be notified and asks again.
    pub fn resume(&mut self) -> (resumed: bool)
        ensures
            (resumed, final(self)@) == after_resume(old(self)@),
    {
        match self.phase {
            Phase::Parked => {
                if self.parker.park() {
                    self.phase = Phase::Polling;
                    true
                } else {
                    false
                }
            },
            _ => false,
        }
    }
}

/// The driver never polls again before a wake signal has been observed: a
/// parked driver goes on only if a signal is recorded, and going on uses the
/// signal up.
pub proof fn lemma_no_poll_without_wake(state: DriverState)
    ensures
        after_resume(state).0 ==> state.phase == Phase::Parked && state.signal,
        after_resume(state).0 ==> after_resume(state).1.phase == Phase::Polling && !after_resume(
            state,
        ).1.signal,
        !after_resume(state).0 ==> after_resume(state).1 == state,
{
}

/// A wake that races with the park is not lost: whether the handle fires
/// before the pending poll is reported or after it, the driver goes on.
pub proof fn lemma_wake_before_park_is_kept(state: DriverState)
    requires
        state.phase == Phase::Polling,
    ensures
        after_resume(after_poll(after_wake(state), false)).0,
        after_resume(after_wake(after_poll(state, false))).0,
        after_resume(after_poll(after_wake(state), false)).1 == after_resume(
            after_wake(after_poll(state, false)),
        ).1,
{
}

/// Firing a wake handle twice is harmless: the second fire changes nothing.
pub proof fn lemma_second_wake_is_a_no_op(state: DriverState)
    ensures
        after_wake(after_wake(state)) == after_wake(state),
{
}

/// A finished driver stays finished: no wake makes it poll again.
pub proof fn lemma_finished_is_final(state: DriverState)
    requires
        state.phase == Phase::Finished,
    ensures
        after_wake(state).phase == Phase::Finished,
        !after_resume(after_wake(state)).0,
        after_resume(state).1 == state,
{
}

} // verus!
