//! The reactor: the timeout service and the readiness service behind one
//! lock.
//!
//! Suspended computations register their wake handles here.  The thread of
//! each service asks in turn which handles to fire: the timeout thread with
//! the current instant, the readiness thread with the tokens that the
//! multiplexer reported.
use crate::io_handler::{next_token, unwoken, woken, IOHandler, Interest, Registration};
use crate::timeout_handler::{
    due, enqueue, latest_first, received, taken_in, turned, TimeoutEvent, TimeoutHandler, Turn,
};
use vstd::prelude::*;

verus! {

/// The state of both services.
pub struct Reactor<W> {
    timeout_handler: TimeoutHandler<W>,
    io_handler: IOHandler<W>,
}

impl<W> Reactor<W> {
    /// The pending timers, latest deadline first.
    pub closed spec fn timeouts(&self) -> Seq<(u64, W)> {
        self.timeout_handler@
    }

    /// The handles that wait for readiness, by token.
    pub closed spec fn wakers(&self) -> Map<usize, W> {
        self.io_handler.wakers()
    }

    /// The token that the next readiness registration gets.
    pub closed spec fn next_id(&self) -> usize {
        self.io_handler.next_id()
    }

    /// A reactor with nothing registered.
    pub fn new() -> (reactor: Self)
        ensures
            reactor.timeouts() == Seq::<(u64, W)>::empty(),
            reactor.wakers() == Map::<usize, W>::empty(),
            reactor.next_id() == 0,
    {
        Reactor { timeout_handler: TimeoutHandler::new(), io_handler: IOHandler::new() }
    }

    /// Has `waker` fired once `deadline` has passed.
    pub fn register_timeout(&mut self, deadline: u64, waker: W)
        ensures
            final(self).timeouts() == enqueue(old(self).timeouts(), deadline, waker),
            latest_first(final(self).timeouts()),
            final(self).wakers() == old(self).wakers(),
            final(self).next_id() == old(self).next_id(),
    {
        self.timeout_handler.register_timeout(deadline, waker);
    }

    /// Has `waker` fired once the socket of the calling operation is
    /// readable.  The caller registers the socket with the multiplexer as
    /// the result says.
    pub fn register_read(&mut self, waker: W) -> (registration: Registration)
        ensures
            registration == (Registration {
                token: old(self).next_id(),
                interest: Interest::Readable,
            }),
            final(self).wakers() == old(self).wakers().insert(old(self).next_id(), waker),
            final(self).next_id() == next_token(old(self).next_id()),
            final(self).timeouts() == old(self).timeouts(),
    {
        self.io_handler.register_operation(Interest::Readable, waker)
    }

    /// Has `waker` fired once the socket of the calling operation is
    /// writable.  The caller registers the socket with the multiplexer as
    /// the result says.
    pub fn register_write(&mut self, waker: W) -> (registration: Registration)
        ensures
            registration == (Registration {
                token: old(self).next_id(),
                interest: Interest::Writable,
            }),
            final(self).wakers() == old(self).wakers().insert(old(self).next_id(), waker),
            final(self).next_id() == next_token(old(self).next_id()),
            final(self).timeouts() == old(self).timeouts(),
    {
        self.io_handler.register_operation(Interest::Writable, waker)
    }

    /// One message to the timeout service.  `false` when it closes the
    /// service.
    pub fn receive(&mut self, event: TimeoutEvent<W>) -> (running: bool)
        ensures
            running == !(event is Close),
            final(self).timeouts() == received(old(self).timeouts(), event),
            latest_first(final(self).timeouts()),
            final(self).wakers() == old(self).wakers(),
            final(self).next_id() == old(self).next_id(),
    {
        self.timeout_handler.receive(event)
    }

    /// One turn of the timeout service's thread at the instant `now`: the
    /// messages that have arrived are taken in, and then the earliest timer
    /// fires if its deadline has passed.  A `Close` among the messages ends
    /// the turn and the service.
    pub fn turn(&mut self, inbox: Vec<TimeoutEvent<W>>, now: u64) -> (turn: Turn<W>)
        ensures
            latest_first(final(self).timeouts()),
            !taken_in(old(self).timeouts(), inbox@).1 ==> turn == Turn::<W>::Closed && final(self).timeouts() == taken_in(old(self).timeouts(), inbox@).0,
            taken_in(old(self).timeouts(), inbox@).1 ==> (final(self).timeouts(), turn) == turned(
                taken_in(old(self).timeouts(), inbox@).0,
                now,
            ),
            final(self).wakers() == old(self).wakers(),
            final(self).next_id() == old(self).next_id(),
    {
        self.timeout_handler.turn(inbox, now)
    }

    /// The firing half of a turn of the timeout service: the handle of the
    /// earliest timer, if that timer's deadline has passed at `now`.
    pub fn fire_due(&mut self, now: u64) -> (fired: Option<W>)
        ensures
            latest_first(final(self).timeouts()),
            due(old(self).timeouts(), now) ==> fired == Some(old(self).timeouts().last().1)
                && final(self).timeouts() == old(self).timeouts().drop_last(),
            !due(old(self).timeouts(), now) ==> fired is None && final(self).timeouts() == old(self).timeouts(),
            final(self).wakers() == old(self).wakers(),
            final(self).next_id() == old(self).next_id(),
    {
        self.timeout_handler.fire_due(now)
    }

    /// One turn of the readiness service: the handles to fire for the
    /// reported tokens, in the order of the report.
    pub fn dispatch(&mut self, tokens: &Vec<usize>) -> (fired: Vec<W>)
        ensures
            fired@ == woken(old(self).wakers(), tokens@),
            final(self).wakers() == unwoken(old(self).wakers(), tokens@),
            final(self).next_id() == old(self).next_id(),
            final(self).timeouts() == old(self).timeouts(),
    {
        self.io_handler.dispatch(tokens)
    }
}

} // verus!
