//! The wake handle of the blocking driver: any number of handles share one
//! parker.  Cloning adds a handle, dropping removes one, and firing a handle
//! signals the parker; firing by value also gives the handle up.
use crate::parker::{signalled, Parker};
use vstd::prelude::*;

verus! {

/// What the handles of one driver share, as contracts see it.
pub struct WakerState {
    /// Number of live handles.
    pub handles: nat,
    /// Whether a wake signal is recorded.
    pub signal: bool,
}

/// A handle was cloned.
pub open spec fn cloned(state: WakerState) -> WakerState {
    WakerState { handles: state.handles + 1, signal: state.signal }
}

/// A handle was dropped without firing.
pub open spec fn dropped(state: WakerState) -> WakerState {
    WakerState { handles: (state.handles - 1) as nat, signal: state.signal }
}

/// A handle was fired by reference: it signals and stays alive.
pub open spec fn woken_by_ref(state: WakerState) -> WakerState {
    WakerState { handles: state.handles, signal: signalled(state.signal) }
}

/// A handle was fired by value: it signals and is given up.
pub open spec fn woken_by_value(state: WakerState) -> WakerState {
    dropped(woken_by_ref(state))
}

/// The parker of one driver together with the count of the wake handles
/// that refer to it.
pub struct MyWaker {
    parker: Parker,
    handles: usize,
}

impl MyWaker {
    /// The count of live handles and the parker's signal.
    pub closed spec fn view(&self) -> WakerState {
        WakerState { handles: self.handles as nat, signal: self.parker@ }
    }

    /// Wraps a parker for its first handle.
    pub fn mywaker_into_waker(parker: Parker) -> (waker: MyWaker)
        ensures
            waker@ == (WakerState { handles: 1, signal: parker@ }),
    {
        MyWaker { parker, handles: 1 }
    }

    /// Number of live handles.
    pub fn handles(&self) -> (n: usize)
        ensures
            n == self@.handles,
    {
        self.handles
    }

    /// Whether the last handle is gone, so that what the handles shared can
    /// be released.
    pub fn is_released(&self) -> (released: bool)
        ensures
            released == (self@.handles == 0),
    {
        self.handles == 0
    }

    /// Clones a live handle.
    pub fn mywaker_clone(&mut self)
        requires
            0 < old(self)@.handles < usize::MAX,
        ensures
            final(self)@ == cloned(old(self)@),
    {
        self.handles = self.handles + 1;
    }

    /// Fires a live handle by value: the parker is signalled and the handle
    /// is given up.
    pub fn mywaker_wake(&mut self)
        requires
            old(self)@.handles > 0,
        ensures
            final(self)@ == woken_by_value(old(self)@),
    {
        self.parker.unpark();
        self.handles = self.handles - 1;
    }

    /// Fires a live handle by reference: the parker is signalled and the
    /// handle stays alive.
    pub fn mywaker_wake_by_ref(&mut self)
        requires
            old(self)@.handles > 0,
        ensures
            final(self)@ == woken_by_ref(old(self)@),
    {
        self.parker.unpark();
    }

    /// Drops a live handle without firing it.
    pub fn mywaker_drop(&mut self)
        requires
            old(self)@.handles > 0,
        ensures
            final(self)@ == dropped(old(self)@),
    {
        self.handles = self.handles - 1;
    }

    /// The driver's side: tries to go on, as `Parker::park` does.
    pub fn park(&mut self) -> (resumed: bool)
        ensures
            resumed == old(self)@.signal,
            final(self)@ == (WakerState { handles: old(self)@.handles, signal: false }),
    {
        self.parker.park()
    }
}

/// Firing by value is firing by reference and then dropping the handle:
/// both record the same signal, and only firing by value gives the handle
/// up.
pub proof fn lemma_wake_by_value_consumes(state: WakerState)
    requires
        state.handles > 0,
    ensures
        woken_by_value(state).signal == woken_by_ref(state).signal,
        woken_by_ref(state).signal,
        woken_by_ref(state).handles == state.handles,
        woken_by_value(state).handles == state.handles - 1,
        woken_by_value(state) == dropped(woken_by_ref(state)),
{
}

/// Cloning and dropping balance: a clone that is dropped, or fired by
/// value, leaves as many handles as there were, and neither cloning nor
/// dropping touches the signal.
pub proof fn lemma_clone_then_drop(state: WakerState)
    ensures
        dropped(cloned(state)) == state,
        woken_by_value(cloned(state)).handles == state.handles,
        cloned(state).signal == state.signal,
        dropped(state).signal == state.signal,
{
}

/// Firing twice through handles that are not tied to the pending-operation
/// table is harmless: the second fire records nothing new.
pub proof fn lemma_double_fire_is_harmless(state: WakerState)
    ensures
        woken_by_ref(woken_by_ref(state)) == woken_by_ref(state),
        woken_by_value(woken_by_ref(state)).signal == woken_by_ref(state).signal,
{
}

} // verus!
