//! The pending-operation table: outstanding operations under numeric ids,
//! for events that are tied neither to a socket nor to a timer.
//!
//! An id goes from not ready to ready to finished, once.  A wake that finds
//! its id in any other state than not ready is a usage error, reported as
//! such and never swallowed; the caller treats it as fatal.
use std::collections::HashMap;
use vstd::prelude::*;

verus! {

broadcast use vstd::std_specs::hash::group_hash_axioms;

/// The state of one operation.
#[derive(Debug, PartialEq, Eq)]
pub enum TaskState<W> {
    /// The event has not happened; the handle is fired when it does.
    NotReady(W),
    /// The event has happened and the owning computation has not seen it.
    Ready,
    /// The owning computation has completed.
    Finished,
}

/// A violation of the table's protocol.
#[derive(Clone, Copy, Debug, PartialEq, Eq, Structural)]
pub enum TableError {
    /// The id was never registered, or has been removed.
    NeverRegistered,
    /// The id has been woken already and not been consumed.
    AlreadyReady,
    /// The id's computation has completed.
    AlreadyFinished,
}

/// A unit of background work to start: when it is done, the one who ran it
/// calls `wake` with the id.
#[derive(Clone, Copy, Debug, PartialEq, Eq, Structural)]
pub struct Work {
    pub id: usize,
    pub payload: u64,
}

/// What a table in state `tasks` holds against touching `id` as an operation
/// that is pending: nothing if the id is not ready, an error otherwise.
pub open spec fn fault<W>(tasks: Map<usize, TaskState<W>>, id: usize) -> Option<TableError> {
    if !tasks.contains_key(id) {
        Some(TableError::NeverRegistered)
    } else {
        match tasks[id] {
            TaskState::NotReady(_) => None,
            TaskState::Ready => Some(TableError::AlreadyReady),
            TaskState::Finished => Some(TableError::AlreadyFinished),
        }
    }
}

/// The id is registered and its event has not happened.
pub open spec fn not_ready<W>(tasks: Map<usize, TaskState<W>>, id: usize) -> bool {
    tasks.contains_key(id) && tasks[id] is NotReady
}

/// The id's event has happened and has not been consumed.
pub open spec fn ready<W>(tasks: Map<usize, TaskState<W>>, id: usize) -> bool {
    tasks.contains_key(id) && tasks[id] is Ready
}

/// The table after `register`: a new id, or one that is not ready, holds the
/// given handle; an id that is ready or finished is left alone.
pub open spec fn registered<W>(tasks: Map<usize, TaskState<W>>, id: usize, waker: W) -> Map<
    usize,
    TaskState<W>,
> {
    if !tasks.contains_key(id) || tasks[id] is NotReady {
        tasks.insert(id, TaskState::NotReady(waker))
    } else {
        tasks
    }
}

/// The table after `wake`: an id that was not ready is ready; in any other
/// case nothing has changed.
pub open spec fn woken<W>(tasks: Map<usize, TaskState<W>>, id: usize) -> Map<usize, TaskState<W>> {
    if not_ready(tasks, id) {
        tasks.insert(id, TaskState::Ready)
    } else {
        tasks
    }
}

/// The table after `consume`: an id that was ready is finished; in any other
/// case nothing has changed.
pub open spec fn consumed<W>(tasks: Map<usize, TaskState<W>>, id: usize) -> Map<
    usize,
    TaskState<W>,
> {
    if ready(tasks, id) {
        tasks.insert(id, TaskState::Finished)
    } else {
        tasks
    }
}

/// The pending-operation table.
pub struct PendingTable<W> {
    tasks: HashMap<usize, TaskState<W>>,
}

impl<W> PendingTable<W> {
    /// The state of every registered id.
    pub closed spec fn view(&self) -> Map<usize, TaskState<W>> {
        self.tasks@
    }

    /// An empty table.
    pub fn new() -> (table: Self)
        ensures
            table@ == Map::<usize, TaskState<W>>::empty(),
    {
        PendingTable { tasks: HashMap::new() }
    }

    /// Number of registered ids.
    pub fn len(&self) -> (n: usize)
        ensures
            n == self@.len(),
    {
        self.tasks.len()
    }

    /// Registers interest in `id`.  A new id is entered as not ready with
    /// `waker`, and the background work for `payload` is returned for the
    /// caller to start.  An id that is registered and not ready keeps its
    /// entry and only has its handle replaced by `waker`; no work is
    /// started.  An id that is ready or finished is a usage error and leaves
    /// the table as it was.
    pub fn register(&mut self, payload: u64, waker: W, id: usize) -> (outcome: Result<
        Option<Work>,
        TableError,
    >)
        ensures
            final(self)@ == registered(old(self)@, id, waker),
            !old(self)@.contains_key(id) ==> outcome == Ok::<Option<Work>, TableError>(
                Some(Work { id, payload }),
            ),
            not_ready(old(self)@, id) ==> outcome == Ok::<Option<Work>, TableError>(None),
            ready(old(self)@, id) ==> outcome == Err::<Option<Work>, TableError>(
                TableError::AlreadyReady,
            ),
            old(self)@.contains_key(id) && old(self)@[id] is Finished ==> outcome == Err::<
                Option<Work>,
                TableError,
            >(TableError::AlreadyFinished),
    {
        match self.tasks.remove(&id) {
            None => {
                self.tasks.insert(id, TaskState::NotReady(waker));
                assert(self.tasks@ =~= registered(old(self)@, id, waker));
                Ok(Some(Work { id, payload }))
            },
            Some(TaskState::NotReady(_)) => {
                self.tasks.insert(id, TaskState::NotReady(waker));
                assert(self.tasks@ =~= registered(old(self)@, id, waker));
                Ok(None)
            },
            Some(TaskState::Ready) => {
                self.tasks.insert(id, TaskState::Ready);
                assert(self.tasks@ =~= old(self)@);
                Err(TableError::AlreadyReady)
            },
            Some(TaskState::Finished) => {
                self.tasks.insert(id, TaskState::Finished);
                assert(self.tasks@ =~= old(self)@);
                Err(TableError::AlreadyFinished)
            },
        }
    }

    /// Reports that the event of `id` has happened.  An id that is not ready
    /// becomes ready and its handle is returned for the caller to fire.  Any
    /// other state is an error, a lost or duplicate wake signal: the table
    /// stays as it was and the caller must not go on.
    pub fn wake(&mut self, id: usize) -> (outcome: Result<W, TableError>)
        ensures
            final(self)@ == woken(old(self)@, id),
            match outcome {
                Ok(waker) => not_ready(old(self)@, id) && old(self)@[id] == TaskState::NotReady(
                    waker,
                ),
                Err(error) => fault(old(self)@, id) == Some(error),
            },
    {
        match self.tasks.remove(&id) {
            None => Err(TableError::NeverRegistered),
            Some(TaskState::NotReady(waker)) => {
                self.tasks.insert(id, TaskState::Ready);
                assert(self.tasks@ =~= woken(old(self)@, id));
                Ok(waker)
            },
            Some(TaskState::Ready) => {
                self.tasks.insert(id, TaskState::Ready);
                assert(self.tasks@ =~= old(self)@);
                Err(TableError::AlreadyReady)
            },
            Some(TaskState::Finished) => {
                self.tasks.insert(id, TaskState::Finished);
                assert(self.tasks@ =~= old(self)@);
                Err(TableError::AlreadyFinished)
            },
        }
    }

    /// Whether the event of `id` has happened and has not been consumed.
    pub fn is_ready(&self, id: usize) -> (is: bool)
        ensures
            is == ready(self@, id),
    {
        match self.tasks.get(&id) {
            Some(TaskState::Ready) => true,
            _ => false,
        }
    }

    /// Consumes the ready state of `id`: a ready id becomes finished and
    /// `true` is returned, which completes the owning computation.  In any
    /// other state nothing changes and `false` is returned.
    pub fn consume(&mut self, id: usize) -> (completed: bool)
        ensures
            completed == ready(old(self)@, id),
            final(self)@ == consumed(old(self)@, id),
    {
        if self.is_ready(id) {
            self.tasks.insert(id, TaskState::Finished);
            true
        } else {
            false
        }
    }

    /// Removes `id` from the table, in whatever state: the owning computation
    /// has seen its completion, or has been dropped.  Returns the state that
    /// the id was in.
    pub fn remove(&mut self, id: usize) -> (state: Option<TaskState<W>>)
        ensures
            final(self)@ == old(self)@.remove(id),
            old(self)@.contains_key(id) ==> state == Some(old(self)@[id]),
            !old(self)@.contains_key(id) ==> state is None,
    {
        self.tasks.remove(&id)
    }
}

/// A second wake is always an error: once an id has been woken, a further
/// wake fails as already ready, and after the ready state has been consumed
/// it fails as already finished.  Neither changes the table.
pub proof fn lemma_second_wake_is_an_error<W>(tasks: Map<usize, TaskState<W>>, id: usize)
    requires
        not_ready(tasks, id),
    ensures
        fault(tasks, id) is None,
        fault(woken(tasks, id), id) == Some(TableError::AlreadyReady),
        woken(woken(tasks, id), id) == woken(tasks, id),
        fault(consumed(woken(tasks, id), id), id) == Some(TableError::AlreadyFinished),
        woken(consumed(woken(tasks, id), id), id) == consumed(woken(tasks, id), id),
{
}

/// A wake for an id that was never registered is an error and enters
/// nothing.
pub proof fn lemma_wake_before_register_is_an_error<W>(tasks: Map<usize, TaskState<W>>, id: usize)
    requires
        !tasks.contains_key(id),
    ensures
        fault(tasks, id) == Some(TableError::NeverRegistered),
        woken(tasks, id) == tasks,
{
}

/// An id goes from not ready to ready to finished, and no further: a
/// finished id is changed by no wake, no consumption and no registration.
pub proof fn lemma_finished_stays_finished<W>(tasks: Map<usize, TaskState<W>>, id: usize, waker: W)
    requires
        tasks.contains_key(id),
        tasks[id] is Finished,
    ensures
        woken(tasks, id) == tasks,
        consumed(tasks, id) == tasks,
        registered(tasks, id, waker) == tasks,
{
}

/// Registering again while not ready replaces the handle and keeps one
/// entry: the table has the same ids as before, and the latest handle is the
/// one that a wake returns.
pub proof fn lemma_reregistering_replaces_handle<W>(
    tasks: Map<usize, TaskState<W>>,
    id: usize,
    first: W,
    second: W,
)
    requires
        !tasks.contains_key(id) || tasks[id] is NotReady,
    ensures
        registered(registered(tasks, id, first), id, second) == registered(tasks, id, second),
        registered(tasks, id, second).dom() == tasks.dom().insert(id),
        registered(tasks, id, second)[id] == TaskState::NotReady(second),
{
    assert(registered(registered(tasks, id, first), id, second) =~= registered(
        tasks,
        id,
        second,
    ));
    assert(registered(tasks, id, second).dom() =~= tasks.dom().insert(id));
}

/// Operations on one id leave every other id as it was.
pub proof fn lemma_other_ids_untouched<W>(
    tasks: Map<usize, TaskState<W>>,
    id: usize,
    other: usize,
    waker: W,
)
    requires
        id != other,
    ensures
        registered(tasks, id, waker).contains_key(other) == tasks.contains_key(other),
        woken(tasks, id).contains_key(other) == tasks.contains_key(other),
        consumed(tasks, id).contains_key(other) == tasks.contains_key(other),
        tasks.contains_key(other) ==> registered(tasks, id, waker)[other] == tasks[other] && woken(
            tasks,
            id,
        )[other] == tasks[other] && consumed(tasks, id)[other] == tasks[other],
{
}

} // verus!
