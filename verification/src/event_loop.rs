//! The event loop: a second, callback-free way to serve many connections
//! from one thread.  Handlers are state machines under numeric ids; the loop
//! polls the handlers that are scheduled, and hands each readiness event to
//! the handler of its id, which may schedule itself.
//!
//! The loop and its handlers decide; the caller owns the sockets and the
//! poller and does what they say.
use std::collections::HashMap;
use vstd::prelude::*;

verus! {

broadcast use vstd::std_specs::hash::group_hash_axioms;

/// Where a client connection stands.
#[derive(Clone, Copy, Debug, PartialEq, Eq, Structural)]
pub enum State {
    /// Waiting for the socket to become readable.
    WaitingRead,
    /// Scheduled to read a request.
    Reading,
    /// Holding a response, waiting for the socket to become writable.
    WaitingWrite,
    /// Scheduled to write the response.
    Writing,
    /// The peer has closed the connection.
    Finished,
}

/// What a client handler asks its caller to do on the socket.
#[derive(Debug, PartialEq, Eq)]
pub enum ClientIo {
    /// Read a request, then report it with `read_done`.
    Read,
    /// Write all of this response, then await readability again.
    Write(String),
    /// Nothing.
    Idle,
}

/// The state after a readiness event, and whether the handler is to be
/// scheduled: a handler that waits for the direction that the event reports
/// is scheduled for it; any other handler ignores the event.
pub open spec fn on_event(state: State, readable: bool, writable: bool) -> (State, bool) {
    match state {
        State::WaitingRead => if readable {
            (State::Reading, true)
        } else {
            (state, false)
        },
        State::WaitingWrite => if writable {
            (State::Writing, true)
        } else {
            (state, false)
        },
        _ => (state, false),
    }
}

/// The tasks after a handler has seen an event.
pub open spec fn scheduled(tasks: Seq<usize>, id: usize, schedule: bool) -> Seq<usize> {
    if schedule {
        tasks.push(id)
    } else {
        tasks
    }
}

/// The handler of one client connection.
pub struct AsyncClientHandler {
    id: usize,
    state: State,
    response: Option<String>,
}

impl AsyncClientHandler {
    #[verifier::type_invariant]
    spec fn holds_response(self) -> bool {
        (self.state is WaitingWrite || self.state is Writing) ==> self.response is Some
    }

    /// The id under which the handler is registered.
    pub closed spec fn spec_id(&self) -> usize {
        self.id
    }

    /// Where the connection stands.
    pub closed spec fn spec_state(&self) -> State {
        self.state
    }

    /// The response that waits to be written, if any.
    pub closed spec fn response(&self) -> Option<Seq<char>> {
        match self.response {
            Some(text) => Some(text@),
            None => None,
        }
    }

    /// The handler of a new connection, which waits for its first request.
    pub fn new(id: usize) -> (handler: Self)
        ensures
            handler.spec_id() == id,
            handler.spec_state() == State::WaitingRead,
            handler.response() is None,
    {
        AsyncClientHandler { id, state: State::WaitingRead, response: None }
    }

    /// The id under which the handler is registered.
    pub fn id(&self) -> (id: usize)
        ensures
            id == self.spec_id(),
    {
        self.id
    }

    /// Where the connection stands.
    pub fn state(&self) -> (state: State)
        ensures
            state == self.spec_state(),
    {
        self.state
    }

    /// Takes a readiness event of the handler's socket, and schedules the
    /// handler if it was waiting for it.
    pub fn event(&mut self, readable: bool, writable: bool, tasks: &mut Vec<usize>)
        ensures
            final(self).spec_id() == old(self).spec_id(),
            final(self).response() == old(self).response(),
            final(self).spec_state() == on_event(old(self).spec_state(), readable, writable).0,
            final(tasks)@ == scheduled(
                old(tasks)@,
                old(self).spec_id(),
                on_event(old(self).spec_state(), readable, writable).1,
            ),
    {
        proof {
            use_type_invariant(&*self);
        }
        match self.state {
            State::WaitingRead => {
                if readable {
                    tasks.push(self.id);
                    self.state = State::Reading;
                }
            },
            State::WaitingWrite => {
                if writable {
                    tasks.push(self.id);
                    self.state = State::Writing;
                }
            },
            _ => {},
        }
    }

    /// Runs the handler when the loop has scheduled it.  A handler that is
    /// to read asks for the read.  A handler that is to write hands over its
    /// response and goes back to waiting for the next request.  Any other
    /// handler does nothing.
    pub fn poll(&mut self) -> (io: ClientIo)
        ensures
            final(self).spec_id() == old(self).spec_id(),
            old(self).spec_state() is Reading ==> io == ClientIo::Read && final(self).spec_state()
                == State::Reading && final(self).response() == old(self).response(),
            old(self).spec_state() is Writing ==> (io matches ClientIo::Write(text) && Some(text@)
                == old(self).response()) && final(self).spec_state() == State::WaitingRead
                && final(self).response() is None,
            !(old(self).spec_state() is Reading) && !(old(self).spec_state() is Writing) ==> io
                == ClientIo::Idle && final(self).spec_state() == old(self).spec_state()
                && final(self).response() == old(self).response(),
    {
        proof {
            use_type_invariant(&*self);
        }
        match self.state {
            State::Reading => ClientIo::Read,
            State::Writing => {
                let mut response: Option<String> = None;
                self.state = State::WaitingRead;
                std::mem::swap(&mut self.response, &mut response);
                match response {
                    Some(text) => ClientIo::Write(text),
                    None => ClientIo::Idle,
                }
            },
            _ => ClientIo::Idle,
        }
    }

    /// Takes the outcome of the read that `poll` asked for: the response to
    /// the request that was read, or `None` if the peer has closed the
    /// connection.  With a response the handler waits for the socket to
    /// become writable and `false` is returned.  Without one the handler is
    /// finished and `true` is returned: the caller withdraws the socket from
    /// the poller and the handler from the loop.
    pub fn read_done(&mut self, response: Option<String>) -> (finished: bool)
        requires
            old(self).spec_state() is Reading,
        ensures
            final(self).spec_id() == old(self).spec_id(),
            finished == response is None,
            final(self).spec_state() == (if response is None {
                State::Finished
            } else {
                State::WaitingWrite
            }),
            response matches Some(text) ==> final(self).response() == Some(text@),
            response is None ==> final(self).response() == old(self).response(),
    {
        proof {
            use_type_invariant(&*self);
        }
        match response {
            Some(text) => {
                let id = self.id;
                *self = AsyncClientHandler { id, state: State::WaitingWrite, response: Some(text) };
                false
            },
            None => {
                self.state = State::Finished;
                true
            },
        }
    }
}

/// Where a listener stands.
#[derive(Debug, PartialEq, Eq)]
pub enum ListenerState<C> {
    /// Not yet known to the poller.
    Started,
    /// Waiting for a connection.
    Waiting,
    /// Holding a connection that it has accepted.
    Accepting(C),
}

/// What a listener asks its caller to do.
#[derive(Debug, PartialEq, Eq)]
pub enum ListenerIo<C> {
    /// Add the listening socket to the poller, for readability.
    Listen,
    /// Add this connection to the poller, for readability, register a client
    /// handler for it with the loop, and await readability of the listening
    /// socket again.
    Serve(C),
    /// Nothing.
    Idle,
}

/// What a listener in `state` asks for when it is polled.
pub open spec fn listener_io<C>(state: ListenerState<C>) -> ListenerIo<C> {
    match state {
        ListenerState::Started => ListenerIo::Listen,
        ListenerState::Waiting => ListenerIo::Idle,
        ListenerState::Accepting(connection) => ListenerIo::Serve(connection),
    }
}

/// The handler of a listening socket, over connections of type `C`.
pub struct AsyncTcpListener<C> {
    id: usize,
    state: ListenerState<C>,
}

impl<C> AsyncTcpListener<C> {
    /// The id under which the handler is registered.
    pub closed spec fn spec_id(&self) -> usize {
        self.id
    }

    /// Where the listener stands.
    pub closed spec fn spec_state(&self) -> ListenerState<C> {
        self.state
    }

    /// The handler of a socket that is bound and not yet polled.
    pub fn new(id: usize) -> (listener: Self)
        ensures
            listener.spec_id() == id,
            listener.spec_state() == ListenerState::<C>::Started,
    {
        AsyncTcpListener { id, state: ListenerState::Started }
    }

    /// The id under which the handler is registered.
    pub fn id(&self) -> (id: usize)
        ensures
            id == self.spec_id(),
    {
        self.id
    }

    /// Runs the handler when the loop has scheduled it.  Whatever it was
    /// doing, the listener waits for a connection afterwards.
    pub fn poll(&mut self) -> (io: ListenerIo<C>)
        ensures
            final(self).spec_id() == old(self).spec_id(),
            final(self).spec_state() == ListenerState::<C>::Waiting,
            io == listener_io(old(self).spec_state()),
    {
        let mut state: ListenerState<C> = ListenerState::Waiting;
        std::mem::swap(&mut self.state, &mut state);
        match state {
            ListenerState::Started => ListenerIo::Listen,
            ListenerState::Waiting => ListenerIo::Idle,
            ListenerState::Accepting(connection) => ListenerIo::Serve(connection),
        }
    }

    /// Whether a readiness event of the listening socket calls for an
    /// accept: it does if the listener waits for a connection and the socket
    /// is readable.  The caller then accepts and reports the connection
    /// with `accepted`.
    pub fn event(&self, readable: bool) -> (accept: bool)
        ensures
            accept == (readable && self.spec_state() is Waiting),
    {
        match self.state {
            ListenerState::Waiting => readable,
            _ => false,
        }
    }

    /// Takes the connection that the caller accepted, and schedules the
    /// listener so that its next poll hands the connection on.
    pub fn accepted(&mut self, connection: C, tasks: &mut Vec<usize>)
        requires
            old(self).spec_state() is Waiting,
        ensures
            final(self).spec_id() == old(self).spec_id(),
            final(self).spec_state() == ListenerState::Accepting(connection),
            final(tasks)@ == old(tasks)@.push(old(self).spec_id()),
    {
        tasks.push(self.id);
        self.state = ListenerState::Accepting(connection);
    }
}

/// The handlers after the loop has taken in a queue of new handlers, which
/// it empties from the back: of two handlers queued under one id, the one
/// queued first stays.
pub open spec fn enrolled<H>(handlers: Map<usize, H>, queue: Seq<(usize, H)>) -> Map<usize, H>
    decreases queue.len(),
{
    if queue.len() == 0 {
        handlers
    } else {
        enrolled(handlers.insert(queue.last().0, queue.last().1), queue.drop_last())
    }
}

/// The bookkeeping of the event loop, over handlers of type `H`.
pub struct EventLoop<H> {
    tasks: Vec<usize>,
    handlers: HashMap<usize, H>,
}

impl<H> EventLoop<H> {
    /// The ids that are scheduled; the loop polls the last one first.
    pub closed spec fn tasks(&self) -> Seq<usize> {
        self.tasks@
    }

    /// The registered handlers by id.
    pub closed spec fn handlers(&self) -> Map<usize, H> {
        self.handlers@
    }

    /// A loop without handlers.
    pub fn new() -> (event_loop: Self)
        ensures
            event_loop.tasks() == Seq::<usize>::empty(),
            event_loop.handlers() == Map::<usize, H>::empty(),
    {
        EventLoop { tasks: Vec::new(), handlers: HashMap::new() }
    }

    /// Registers `handler` under `id` and schedules it.
    pub fn register(&mut self, id: usize, handler: H)
        ensures
            final(self).tasks() == old(self).tasks().push(id),
            final(self).handlers() == old(self).handlers().insert(id, handler),
    {
        self.tasks.push(id);
        self.handlers.insert(id, handler);
    }

    /// Schedules every id in `ids`, in their order.
    pub fn schedule(&mut self, ids: &Vec<usize>)
        ensures
            final(self).tasks() == old(self).tasks() + ids@,
            final(self).handlers() == old(self).handlers(),
    {
        let mut i: usize = 0;
        while i < ids.len()
            invariant
                i <= ids@.len(),
                self.handlers() == old(self).handlers(),
                self.tasks() == old(self).tasks() + ids@.subrange(0, i as int),
            decreases ids@.len() - i,
        {
            self.tasks.push(ids[i]);
            i = i + 1;
            assert(self.tasks() =~= old(self).tasks() + ids@.subrange(0, i as int));
        }
        assert(ids@.subrange(0, i as int) =~= ids@);
    }

    /// The next id to poll: the one scheduled last.  `None` when nothing is
    /// scheduled, and the loop goes on to wait for events.
    pub fn next_task(&mut self) -> (task: Option<usize>)
        ensures
            final(self).handlers() == old(self).handlers(),
            old(self).tasks().len() == 0 ==> task is None && final(self).tasks() == old(self).tasks(),
            old(self).tasks().len() > 0 ==> task == Some(old(self).tasks().last()) && final(self).tasks() == old(self).tasks().drop_last(),
    {
        self.tasks.pop()
    }

    /// Lends out the handler of `id` for a poll or an event, by taking it
    /// out of the loop; `put_handler` brings it back.
    pub fn take_handler(&mut self, id: usize) -> (handler: Option<H>)
        ensures
            final(self).tasks() == old(self).tasks(),
            final(self).handlers() == old(self).handlers().remove(id),
            old(self).handlers().contains_key(id) ==> handler == Some(old(self).handlers()[id]),
            !old(self).handlers().contains_key(id) ==> handler is None,
    {
        self.handlers.remove(&id)
    }

    /// Brings back a handler that was lent out.
    pub fn put_handler(&mut self, id: usize, handler: H)
        ensures
            final(self).tasks() == old(self).tasks(),
            final(self).handlers() == old(self).handlers().insert(id, handler),
    {
        self.handlers.insert(id, handler);
    }

    /// Takes in the handlers that were queued during the polls, emptying the
    /// queue from the back.  They are not scheduled: each waits for its
    /// first event.
    pub fn enroll(&mut self, queue: Vec<(usize, H)>)
        ensures
            final(self).tasks() == old(self).tasks(),
            final(self).handlers() == enrolled(old(self).handlers(), queue@),
    {
        let mut queue = queue;
        let ghost all = queue@;
        while queue.len() > 0
            invariant
                self.tasks() == old(self).tasks(),
                enrolled(self.handlers(), queue@) == enrolled(old(self).handlers(), all),
            decreases queue@.len(),
        {
            let ghost before = queue@;
            match queue.pop() {
                Some((id, handler)) => {
                    self.handlers.insert(id, handler);
                    assert(queue@ =~= before.drop_last());
                },
                None => {},
            }
        }
    }

    /// Drops the handlers whose ids were queued for removal during the
    /// polls.
    pub fn retire(&mut self, ids: &Vec<usize>)
        ensures
            final(self).tasks() == old(self).tasks(),
            final(self).handlers() == old(self).handlers().remove_keys(ids@.to_set()),
    {
        let mut i: usize = 0;
        assert(ids@.subrange(0, 0).to_set() =~= Set::<usize>::empty());
        assert(self.handlers() =~= old(self).handlers().remove_keys(Set::<usize>::empty()));
        while i < ids.len()
            invariant
                i <= ids@.len(),
                self.tasks() == old(self).tasks(),
                self.handlers() == old(self).handlers().remove_keys(
                    ids@.subrange(0, i as int).to_set(),
                ),
            decreases ids@.len() - i,
        {
            let id = ids[i];
            let ghost seen = ids@.subrange(0, i as int);
            let ghost next = ids@.subrange(0, i + 1);
            proof {
                assert(next.drop_last() =~= seen);
                assert(next.last() == id);
                assert(next.to_set() =~= seen.to_set().insert(id));
                assert(old(self).handlers().remove_keys(seen.to_set()).remove(id) =~= old(self).handlers().remove_keys(next.to_set()));
            }
            self.handlers.remove(&id);
            i = i + 1;
        }
        assert(ids@.subrange(0, i as int) =~= ids@);
    }
}

/// A connection serves requests in turn: from waiting for a request, the
/// only way on is a readable socket, a read, a response, a writable socket
/// and a write, which lead back to waiting for a request.  Events of the
/// wrong direction, and events on a scheduled or finished handler, change
/// nothing and schedule nothing.
pub proof fn lemma_client_cycle(state: State, readable: bool, writable: bool)
    ensures
        on_event(State::WaitingRead, true, writable) == (State::Reading, true),
        on_event(State::WaitingWrite, readable, true) == (State::Writing, true),
        on_event(State::WaitingRead, false, writable) == (State::WaitingRead, false),
        on_event(State::WaitingWrite, readable, false) == (State::WaitingWrite, false),
        state is Reading || state is Writing || state is Finished ==> on_event(
            state,
            readable,
            writable,
        ) == (state, false),
        on_event(state, readable, writable).1 ==> on_event(state, readable, writable).0 is Reading
            || on_event(state, readable, writable).0 is Writing,
{
}

} // verus!
