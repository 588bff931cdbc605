//! Suspendable reads, writes and accepts over non-blocking sockets.
//!
//! An adapter never performs the system call itself.  The caller makes one
//! non-blocking attempt on the socket that the adapter lends out and reports
//! what came of it; the adapter decides whether the operation is complete or
//! has to wait for the socket.
use crate::executor::{after_poll, after_resume, after_wake, DriverState, Phase};
use crate::io_handler::Interest;
use crate::step::{Step, Wakeup};
use vstd::prelude::*;

verus! {

/// What one non-blocking attempt on a socket came to.
#[derive(Debug, PartialEq, Eq)]
pub enum Attempt<T, E> {
    /// The operation cannot proceed without blocking.
    WouldBlock,
    /// The operation succeeded, or failed for good.
    Done(Result<T, E>),
}

/// The step that an adapter awaiting readiness in `interest` takes on an
/// attempt: would-block suspends it, anything else completes it with the
/// attempt's own result.
pub open spec fn settled<T, E>(attempt: Attempt<T, E>, interest: Interest) -> Step<Result<T, E>> {
    match attempt {
        Attempt::WouldBlock => Step::Pending(Wakeup::OnReady(interest)),
        Attempt::Done(result) => Step::Completed(result),
    }
}

/// The step that an accept takes on an attempt: would-block makes it wake
/// itself and try again, anything else completes it.
pub open spec fn accepted<T, E>(attempt: Attempt<T, E>) -> Step<Result<T, E>> {
    match attempt {
        Attempt::WouldBlock => Step::Pending(Wakeup::Now),
        Attempt::Done(result) => Step::Completed(result),
    }
}

/// A read from `source` into a buffer, which the adapter keeps while it is
/// suspended.
pub struct Read<'a, 'b, S> {
    source: &'a mut S,
    buf: Option<&'b mut [u8]>,
}

impl<'a, 'b, S> Read<'a, 'b, S> {
    /// The contents of the buffer that the adapter holds, if it holds one.
    pub closed spec fn held(&self) -> Option<Seq<u8>> {
        match self.buf {
            Some(buf) => Some(buf@),
            None => None,
        }
    }

    /// A read that has not been attempted yet.
    pub fn new(source: &'a mut S, buf: &'b mut [u8]) -> (read: Self)
        ensures
            read.held() == Some(old(buf)@),
            read.socket() == *old(source),
    {
        Read { source, buf: Some(buf) }
    }

    /// The socket that the read borrows.
    pub closed spec fn socket(&self) -> S {
        *self.source
    }

    /// The socket to read from.  The adapter keeps its buffer, and sees
    /// whatever the caller does to the socket.
    pub fn source(&mut self) -> (source: &mut S)
        ensures
            *source == old(self).socket(),
            final(self).socket() == *final(source),
            final(self).held() == old(self).held(),
    {
        &mut *self.source
    }

    /// Hands out the buffer for one attempt.  `None` once the read has
    /// completed, or while the buffer is already out.
    pub fn take_buf(&mut self) -> (buf: Option<&'b mut [u8]>)
        ensures
            final(self).held() is None,
            final(self).socket() == old(self).socket(),
            buf is Some == old(self).held() is Some,
            buf matches Some(b) ==> old(self).held() == Some(b@),
    {
        self.buf.take()
    }

    /// Takes back the buffer with the outcome of the attempt.  On would-block
    /// the buffer is kept for the next attempt and the read waits for the
    /// socket to become readable; the caller registers the task's wake handle
    /// for that.  Any other outcome completes the read with the attempt's
    /// result, error or not; the caller withdraws the socket from the
    /// readiness multiplexer.
    pub fn settle<E>(&mut self, buf: &'b mut [u8], attempt: Attempt<usize, E>) -> (step: Step<
        Result<usize, E>,
    >)
        ensures
            step == settled(attempt, Interest::Readable),
            attempt is WouldBlock ==> final(self).held() == Some(old(buf)@),
            attempt is Done ==> final(self).held() is None,
            final(self).socket() == old(self).socket(),
    {
        match attempt {
            Attempt::WouldBlock => {
                self.buf = Some(buf);
                Step::Pending(Wakeup::OnReady(Interest::Readable))
            },
            Attempt::Done(result) => {
                self.buf = None;
                Step::Completed(result)
            },
        }
    }
}

/// A write to `source` from a buffer, which the adapter keeps while it is
/// suspended.
pub struct Write<'a, 'b, S> {
    source: &'a mut S,
    buf: Option<&'b [u8]>,
}

impl<'a, 'b, S> Write<'a, 'b, S> {
    /// The bytes that the adapter holds, if it holds any.
    pub closed spec fn held(&self) -> Option<Seq<u8>> {
        match self.buf {
            Some(buf) => Some(buf@),
            None => None,
        }
    }

    /// A write that has not been attempted yet.
    pub fn new(source: &'a mut S, buf: &'b [u8]) -> (write: Self)
        ensures
            write.held() == Some(buf@),
            write.socket() == *old(source),
    {
        Write { source, buf: Some(buf) }
    }

    /// The socket that the write borrows.
    pub closed spec fn socket(&self) -> S {
        *self.source
    }

    /// The socket to write to.  The adapter keeps its bytes, and sees
    /// whatever the caller does to the socket.
    pub fn source(&mut self) -> (source: &mut S)
        ensures
            *source == old(self).socket(),
            final(self).socket() == *final(source),
            final(self).held() == old(self).held(),
    {
        &mut *self.source
    }

    /// Hands out the bytes for one attempt.  `None` once the write has
    /// completed, or while the bytes are already out.
    pub fn take_buf(&mut self) -> (buf: Option<&'b [u8]>)
        ensures
            final(self).held() is None,
            final(self).socket() == old(self).socket(),
            buf is Some == old(self).held() is Some,
            buf matches Some(b) ==> old(self).held() == Some(b@),
    {
        self.buf.take()
    }

    /// Takes back the bytes with the outcome of the attempt.  On would-block
    /// the bytes are kept for the next attempt and the write waits for the
    /// socket to become writable; the caller registers the task's wake handle
    /// for that.  Any other outcome completes the write with the attempt's
    /// result, error or not; the caller withdraws the socket from the
    /// readiness multiplexer.
    pub fn settle<E>(&mut self, buf: &'b [u8], attempt: Attempt<usize, E>) -> (step: Step<
        Result<usize, E>,
    >)
        ensures
            step == settled(attempt, Interest::Writable),
            attempt is WouldBlock ==> final(self).held() == Some(buf@),
            attempt is Done ==> final(self).held() is None,
            final(self).socket() == old(self).socket(),
    {
        match attempt {
            Attempt::WouldBlock => {
                self.buf = Some(buf);
                Step::Pending(Wakeup::OnReady(Interest::Writable))
            },
            Attempt::Done(result) => {
                self.buf = None;
                Step::Completed(result)
            },
        }
    }
}

/// Sockets that can be read without blocking the task.
pub trait AsyncRead: Sized {
    /// A read into `buf` that is yet to be attempted.
    fn async_read<'a, 'b>(&'a mut self, buf: &'b mut [u8]) -> (read: Read<'a, 'b, Self>)
        ensures
            read.held() == Some(old(buf)@),
            read.socket() == *old(self),
    ;
}

/// Sockets that can be written without blocking the task.
pub trait AsyncWrite: Sized {
    /// A write of `buf` that is yet to be attempted.
    fn async_write<'a, 'b>(&'a mut self, buf: &'b [u8]) -> (write: Write<'a, 'b, Self>)
        ensures
            write.held() == Some(buf@),
            write.socket() == *old(self),
    ;
}

/// mio's non-blocking TCP stream.  Nothing is known of a value but that it
/// can be borrowed.
#[verifier::external_type_specification]
#[verifier::external_body]
pub struct ExTcpStream(mio::net::TcpStream);

/// mio's non-blocking TCP listener.  Nothing is known of a value but that it
/// can be borrowed.
#[verifier::external_type_specification]
#[verifier::external_body]
pub struct ExTcpListener(mio::net::TcpListener);

impl AsyncRead for mio::net::TcpStream {
    fn async_read<'a, 'b>(&'a mut self, buf: &'b mut [u8]) -> (read: Read<'a, 'b, Self>) {
        Read::new(self, buf)
    }
}

impl AsyncWrite for mio::net::TcpStream {
    fn async_write<'a, 'b>(&'a mut self, buf: &'b [u8]) -> (write: Write<'a, 'b, Self>) {
        Write::new(self, buf)
    }
}

/// A listening socket whose accepts suspend the task.
pub struct AsyncListener {
    inner: mio::net::TcpListener,
}

impl AsyncListener {
    /// Wraps a listener that is already bound.
    pub fn new(inner: mio::net::TcpListener) -> (listener: Self)
        ensures
            listener.inner() == inner,
    {
        AsyncListener { inner }
    }

    /// The wrapped socket.
    pub closed spec fn inner(&self) -> mio::net::TcpListener {
        self.inner
    }

    /// The socket on which to attempt an accept.
    pub fn socket(&self) -> (inner: &mio::net::TcpListener)
        ensures
            *inner == self.inner(),
    {
        &self.inner
    }

    /// An accept that is yet to be attempted.
    pub fn accept(&self) -> (accept: Accept<'_>)
        ensures
            *accept.listener() == *self,
    {
        Accept { listener: self }
    }
}

/// An accept on a listener.
pub struct Accept<'a> {
    listener: &'a AsyncListener,
}

impl<'a> Accept<'a> {
    /// The listener to accept from.
    pub closed spec fn listener(&self) -> &'a AsyncListener {
        self.listener
    }

    /// The socket on which to attempt the accept.
    pub fn socket(&self) -> (inner: &mio::net::TcpListener)
        ensures
            *inner == self.listener().inner(),
    {
        self.listener.socket()
    }

    /// Takes the outcome of one attempt.  On would-block the accept stays
    /// pending and has the task woken at once, so the driver polls again
    /// without ever parking.  Any other outcome completes the accept with the
    /// attempt's result: the connection and its peer address, or the error.
    pub fn settle<T, E>(&self, attempt: Attempt<T, E>) -> (step: Step<Result<T, E>>)
        ensures
            step == accepted(attempt),
    {
        match attempt {
            Attempt::WouldBlock => Step::Pending(Wakeup::Now),
            Attempt::Done(result) => Step::Completed(result),
        }
    }
}

/// Would-block never reaches the caller of an adapter: a completed step
/// carries the result of an attempt that did not block, and every attempt
/// that did not block completes the step.
pub proof fn lemma_would_block_stays_inside<T, E>(attempt: Attempt<T, E>, interest: Interest)
    ensures
        settled(attempt, interest) is Completed <==> attempt is Done,
        accepted(attempt) is Completed <==> attempt is Done,
        attempt matches Attempt::Done(result) ==> settled(attempt, interest) == Step::Completed(
            result,
        ) && accepted(attempt) == Step::Completed(result),
{
}

/// An accept never parks the driver: while no connection is waiting, each
/// attempt leaves the accept pending with the task woken at once, so that
/// the driver that reports the pending poll goes straight on to the next
/// one; and the first attempt that does not block completes the accept with
/// what the attempt brought.
pub proof fn lemma_accept_respins_until_it_completes<T, E>(
    attempt: Attempt<T, E>,
    driver: DriverState,
)
    requires
        driver.phase == Phase::Polling,
    ensures
        attempt is WouldBlock ==> accepted(attempt) == Step::<Result<T, E>>::Pending(Wakeup::Now)
            && after_resume(after_poll(after_wake(driver), false)).0,
        attempt matches Attempt::Done(result) ==> accepted(attempt) == Step::Completed(result),
{
}

} // verus!
