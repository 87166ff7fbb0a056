//! A value task over a sequence task: resolve with the next item the
//! sequence yields, once.

use vstd::prelude::*;

use crate::task::{Future, FusedStream, Poll, Stream};

verus! {

/// Value task that polls a sequence task until it yields an item and
/// resolves with that item.  If the sequence is exhausted no item will
/// ever come: polling then is a protocol slip of the caller, answered
/// here with quiet no-progress reports rather than a halt, and
/// `is_terminated` tells the caller to stop.
pub struct SelectNextSome<St> where St: FusedStream {
    /// The wrapped sequence task.
    pub stream: St,
    /// Whether the one item has been delivered.
    pub fin: bool,
}

impl<St> SelectNextSome<St> where St: FusedStream {
    /// Wrap a sequence task; the next item it yields becomes the result.
    pub fn new(stream: St) -> (r: Self)
        ensures
            r.stream == stream,
            !r.fin,
    {
        SelectNextSome { stream, fin: false }
    }

    /// Report whether no item will ever come: either one was already
    /// delivered, or the sequence is exhausted.
    pub fn is_terminated(&self) -> (r: bool)
        requires
            self.stream.inv(),
        ensures
            r == (self.fin || self.stream.done()),
    {
        self.fin || self.stream.is_terminated()
    }

    /// Give the wrapped sequence task back.
    pub fn into_inner(self) -> (r: St)
        ensures
            r == self.stream,
    {
        self.stream
    }
}

impl<St> Future for SelectNextSome<St> where St: FusedStream {
    type Output = St::Item;

    open spec fn inv(&self) -> bool {
        self.stream.inv()
    }

    open spec fn done(&self) -> bool {
        self.fin
    }

    open spec fn may_resolve(&self, v: St::Item) -> bool {
        !self.fin
    }

    open spec fn ready_now(&self) -> bool {
        self.stream.ready_now()
    }

    fn poll(&mut self) -> (r: Poll<St::Item>)
        ensures
            (match r {
                Poll::Ready(x) => final(self).stream.produced()
                    == old(self).stream.produced().push(x),
                Poll::Pending => final(self).stream.produced() == old(self).stream.produced(),
            }),
            old(self).stream.done() ==> r is Pending && final(self).fin == old(self).fin
                && final(self).stream.done(),
    {
        match self.stream.poll_next() {
            Poll::Ready(Some(item)) => {
                self.fin = true;
                Poll::Ready(item)
            },
            Poll::Ready(None) => Poll::Pending,
            Poll::Pending => Poll::Pending,
        }
    }
}

} // verus!
