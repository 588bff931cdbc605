//! The decision core of a small asynchronous runtime.
//!
//! Every component is a state machine over plain values: the caller performs
//! the blocking work (sleeping, waiting on sockets, parking a thread) and
//! reports what happened; the functions here decide what happens next and
//! which wake handles to fire.  Wake handles are opaque to this crate, so
//! every type that stores one is generic over it.
//!
//! - [`step`]: what a poll comes to, and how a pending computation asks to
//!   be woken.
//! - [`parker`], [`waker`], [`executor`]: the blocking driver, its parking
//!   flag and its wake handles.
//! - [`timeout_handler`], [`io_handler`], [`reactor`]: the two services of
//!   the reactor.
//! - [`timers`], [`adapters`], [`join`]: the suspendable computations.
//! - [`pending`]: the pending-operation table.
//! - [`event_loop`]: the event loop and its handlers.
//! - [`handler`], [`text`], [`args`]: the line protocol of the servers and
//!   the options of the client.
pub mod adapters;
pub mod args;
pub mod event_loop;
pub mod executor;
pub mod handler;
pub mod io_handler;
pub mod join;
pub mod parker;
pub mod pending;
pub mod reactor;
pub mod step;
pub mod text;
pub mod timeout_handler;
pub mod timers;
pub mod waker;
