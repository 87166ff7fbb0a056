//! Leaf consumer tasks: an always-ready sink over a vector, a sink that
//! refuses everything, and a loopback pipe that is a consumer task and a
//! sequence task at once.

use vstd::prelude::*;
use vstd::pervasive::unreached;

use crate::task::{Poll, Sink, Stream};

verus! {

/// The error code a [`Pipe`] reports once it has been closed.
pub const PIPE_CLOSED: u32 = 1;

/// A consumer task that accepts every item at once and stores it.
pub struct VecSink<T> {
    /// The items accepted so far.
    pub items: Vec<T>,
}

impl<T> VecSink<T> {
    /// An empty, always-ready consumer.
    pub fn new() -> (r: Self)
        ensures
            r.items@ == Seq::<T>::empty(),
    {
        VecSink { items: Vec::new() }
    }
}

impl<T> Sink for VecSink<T> {
    type SinkItem = T;

    type SinkError = u32;

    open spec fn sink_inv(&self) -> bool {
        true
    }

    open spec fn taken(&self) -> Seq<T> {
        self.items@
    }

    open spec fn ready(&self) -> bool {
        true
    }

    fn poll_ready(&mut self) -> (r: Poll<Result<(), u32>>)
        ensures
            r == Poll::<Result<(), u32>>::Ready(Ok(())),
            *final(self) == *old(self),
    {
        Poll::Ready(Ok(()))
    }

    fn start_send(&mut self, item: T) -> (r: Result<(), u32>)
        ensures
            r is Ok,
    {
        self.items.push(item);
        Ok(())
    }

    fn poll_flush(&mut self) -> (r: Poll<Result<(), u32>>)
        ensures
            r == Poll::<Result<(), u32>>::Ready(Ok(())),
            *final(self) == *old(self),
    {
        Poll::Ready(Ok(()))
    }

    fn poll_close(&mut self) -> (r: Poll<Result<(), u32>>)
        ensures
            r == Poll::<Result<(), u32>>::Ready(Ok(())),
            *final(self) == *old(self),
    {
        Poll::Ready(Ok(()))
    }
}

/// A consumer task that refuses every item with a fixed error code.
pub struct RejectSink<T> {
    /// The error code every operation reports.
    pub code: u32,
    /// Nothing is ever stored; this records the item type.
    pub never: Vec<T>,
}

impl<T> RejectSink<T> {
    /// A consumer that reports `code` whenever it is asked for room.
    pub fn new(code: u32) -> (r: Self)
        ensures
            r.code == code,
    {
        RejectSink { code, never: Vec::new() }
    }
}

impl<T> Sink for RejectSink<T> {
    type SinkItem = T;

    type SinkError = u32;

    open spec fn sink_inv(&self) -> bool {
        true
    }

    open spec fn taken(&self) -> Seq<T> {
        Seq::empty()
    }

    open spec fn ready(&self) -> bool {
        false
    }

    fn poll_ready(&mut self) -> (r: Poll<Result<(), u32>>)
        ensures
            r == Poll::<Result<(), u32>>::Ready(Err(old(self).code)),
            *final(self) == *old(self),
    {
        Poll::Ready(Err(self.code))
    }

    fn start_send(&mut self, item: T) -> (r: Result<(), u32>) {
        unreached()
    }

    fn poll_flush(&mut self) -> (r: Poll<Result<(), u32>>)
        ensures
            r == Poll::<Result<(), u32>>::Ready(Err(old(self).code)),
            *final(self) == *old(self),
    {
        Poll::Ready(Err(self.code))
    }

    fn poll_close(&mut self) -> (r: Poll<Result<(), u32>>)
        ensures
            r == Poll::<Result<(), u32>>::Ready(Err(old(self).code)),
            *final(self) == *old(self),
    {
        Poll::Ready(Err(self.code))
    }
}

/// A loopback: items accepted on the consumer side come back out on the
/// sequence side, in order.  It shows how an adapter that transforms one
/// capability forwards the other one untouched.
pub struct Pipe<T> {
    /// The items accepted but not yet yielded.
    pub buf: Vec<T>,
    /// Whether the consumer side has been closed.
    pub closed: bool,
    /// Whether the sequence side has reported exhaustion.
    pub fin: bool,
    /// The items accepted so far.
    pub sent: Ghost<Seq<T>>,
    /// The items yielded so far.
    pub yielded: Ghost<Seq<T>>,
}

impl<T> Pipe<T> {
    /// A well-formed pipe: everything accepted is either already yielded
    /// or still buffered, and exhaustion is only reported once the pipe
    /// is closed and drained.
    pub open spec fn wf(&self) -> bool {
        &&& self.sent@ == self.yielded@ + self.buf@
        &&& self.fin ==> self.closed && self.buf@.len() == 0
    }

    /// An empty, open pipe.
    pub fn new() -> (r: Self)
        ensures
            r.wf(),
            !r.closed,
            !r.fin,
            r.buf@ == Seq::<T>::empty(),
            r.sent@ == Seq::<T>::empty(),
            r.yielded@ == Seq::<T>::empty(),
    {
        Pipe {
            buf: Vec::new(),
            closed: false,
            fin: false,
            sent: Ghost(Seq::empty()),
            yielded: Ghost(Seq::empty()),
        }
    }
}

impl<T> Sink for Pipe<T> {
    type SinkItem = T;

    type SinkError = u32;

    open spec fn sink_inv(&self) -> bool {
        self.wf()
    }

    open spec fn taken(&self) -> Seq<T> {
        self.sent@
    }

    open spec fn ready(&self) -> bool {
        !self.closed
    }

    fn poll_ready(&mut self) -> (r: Poll<Result<(), u32>>)
        ensures
            *final(self) == *old(self),
            !old(self).closed ==> r == Poll::<Result<(), u32>>::Ready(Ok(())),
            old(self).closed ==> r == Poll::<Result<(), u32>>::Ready(Err(PIPE_CLOSED)),
    {
        if !self.closed {
            Poll::Ready(Ok(()))
        } else {
            Poll::Ready(Err(PIPE_CLOSED))
        }
    }

    fn start_send(&mut self, item: T) -> (r: Result<(), u32>)
        ensures
            r is Ok,
            final(self).buf@ == old(self).buf@.push(item),
            final(self).yielded@ == old(self).yielded@,
            final(self).closed == old(self).closed,
            final(self).fin == old(self).fin,
    {
        self.buf.push(item);
        self.sent = Ghost(self.sent@.push(item));
        Ok(())
    }

    fn poll_flush(&mut self) -> (r: Poll<Result<(), u32>>)
        ensures
            *final(self) == *old(self),
            r is Pending <==> old(self).buf@.len() > 0,
    {
        if self.buf.len() == 0 {
            Poll::Ready(Ok(()))
        } else {
            Poll::Pending
        }
    }

    fn poll_close(&mut self) -> (r: Poll<Result<(), u32>>)
        ensures
            final(self).closed,
            final(self).buf@ == old(self).buf@,
            final(self).yielded@ == old(self).yielded@,
            final(self).fin == old(self).fin,
            r is Pending <==> old(self).buf@.len() > 0,
    {
        self.closed = true;
        if self.buf.len() == 0 {
            Poll::Ready(Ok(()))
        } else {
            Poll::Pending
        }
    }
}

impl<T> Stream for Pipe<T> {
    type Item = T;

    open spec fn inv(&self) -> bool {
        self.wf()
    }

    open spec fn produced(&self) -> Seq<T> {
        self.yielded@
    }

    open spec fn done(&self) -> bool {
        self.fin
    }

    open spec fn ready_now(&self) -> bool {
        self.buf@.len() > 0
    }

    open spec fn remaining(&self) -> nat {
        self.buf@.len()
    }

    fn poll_next(&mut self) -> (r: Poll<Option<T>>)
        ensures
            old(self).buf@.len() > 0 ==> r == Poll::Ready(Some(old(self).buf@[0]))
                && final(self).buf@ == old(self).buf@.skip(1),
            old(self).buf@.len() == 0 && old(self).closed
                ==> r == Poll::<Option<T>>::Ready(None),
            old(self).buf@.len() == 0 && !old(self).closed ==> r == Poll::<Option<T>>::Pending,
    {
        if self.buf.len() > 0 {
            let x = self.buf.remove(0);
            self.yielded = Ghost(self.yielded@.push(x));
            proof {
                assert(self.sent@ =~= self.yielded@ + self.buf@);
            }
            Poll::Ready(Some(x))
        } else if self.closed {
            self.fin = true;
            Poll::Ready(None)
        } else {
            Poll::Pending
        }
    }
}

} // verus!
