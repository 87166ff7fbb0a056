//! Item transformation in front of a consumer task: each accepted item
//! runs through an asynchronous, possibly fallible conversion before it
//! is handed to the wrapped consumer.  One item is in flight at a time;
//! that one slot is the backpressure mechanism.

use vstd::prelude::*;

use crate::err_into::converted_err;
use crate::task::{Future, Poll, Sink, Stream};

verus! {

/// The one-slot pipeline of a [`With`]: no pending work, a conversion
/// task still running, or a converted item awaiting handoff.  The three
/// are mutually exclusive by construction.
pub enum State<Fut, T> {
    /// No pending sub-work; a new item may be accepted.
    Empty,
    /// The conversion task for the last accepted item is running.
    Process(Fut),
    /// The converted item, waiting for the wrapped consumer to take it.
    Buffered(T),
}

/// Whether `i` is a result the conversion `f` may produce for the raw
/// item `u`: some task `f(u)` can resolve successfully to `i`.
pub open spec fn converts<U, I, E, Fut, F>(f: F, u: U, i: I) -> bool
    where Fut: Future<Output = Result<I, E>>, F: Fn(U) -> Fut,
{
    exists|fut0: Fut| #[trigger] call_ensures(f, (u,), fut0) && fut0.may_resolve(Ok(i))
}

/// Whether `e` is an error the conversion `f` may fail with for the raw
/// item `u`: some task `f(u)` can resolve to that error.
pub open spec fn conversion_fails<U, I, E, Fut, F>(f: F, u: U, e: E) -> bool
    where Fut: Future<Output = Result<I, E>>, F: Fn(U) -> Fut,
{
    exists|fut0: Fut| #[trigger] call_ensures(f, (u,), fut0) && fut0.may_resolve(Err(e))
}

/// Consumer task that converts each accepted item through `f` — an
/// asynchronous, possibly failing conversion — before forwarding it to
/// the wrapped consumer.  `start_send` is only permitted while the
/// pipeline slot is empty; `poll_ready` drives the slot towards empty
/// and reports readiness exactly when it gets there.
pub struct With<Si, U, Fut, F> where Si: Sink {
    /// The wrapped consumer.
    pub sink: Si,
    /// The conversion applied to each accepted item.
    pub f: F,
    /// The one-slot pipeline.
    pub state: State<Fut, Si::SinkItem>,
    /// The raw items accepted so far.
    pub accepted: Ghost<Seq<U>>,
}

impl<Si, U, Fut, F, E> With<Si, U, Fut, F>
    where
        Si: Sink,
        F: Fn(U) -> Fut,
        Fut: Future<Output = Result<Si::SinkItem, E>>,
        E: From<Si::SinkError>,
{
    /// Put a conversion in front of a consumer.  The pipeline starts
    /// empty.
    pub fn new(sink: Si, f: F) -> (r: Self)
        ensures
            r.sink == sink,
            r.f == f,
            r.state is Empty,
            r.accepted@ == Seq::<U>::empty(),
    {
        With { sink, f, state: State::Empty, accepted: Ghost(Seq::empty()) }
    }

    /// Get a shared reference to the wrapped consumer.
    pub fn get_ref(&self) -> (r: &Si)
        ensures
            r == self.sink,
    {
        &self.sink
    }

    /// Get an exclusive reference to the wrapped consumer.
    pub fn get_mut(&mut self) -> &mut Si {
        &mut self.sink
    }

    /// Consume this adapter, returning the wrapped consumer.  Whatever
    /// was still in the pipeline slot is discarded.
    pub fn into_inner(self) -> (r: Si)
        ensures
            r == self.sink,
    {
        self.sink
    }

    /// Drive the pipeline towards the empty slot: finish the running
    /// conversion, then hand the converted item to the wrapped consumer.
    /// Reports readiness exactly when the slot is empty afterwards.
    fn poll_pipeline(&mut self) -> (r: Poll<Result<(), E>>)
        requires
            old(self).sink_inv(),
        ensures
            final(self).sink_inv(),
            final(self).accepted == old(self).accepted,
            final(self).f == old(self).f,
            r matches Poll::Ready(Ok(_)) ==> final(self).state is Empty,
            r is Pending ==> !(final(self).state is Empty),
            (final(self).sink.taken() == old(self).sink.taken())
                || (old(self).accepted@.len() > 0
                    && exists|i: Si::SinkItem|
                        final(self).sink.taken() == old(self).sink.taken().push(i)
                        && #[trigger] converts::<U, Si::SinkItem, E, Fut, F>(
                            old(self).f, old(self).accepted@.last(), i)),
            old(self).state is Empty ==> *final(self) == *old(self)
                && r matches Poll::Ready(Ok(_)),
            r matches Poll::Ready(Err(e)) ==> (old(self).accepted@.len() > 0
                    && conversion_fails::<U, Si::SinkItem, E, Fut, F>(
                        old(self).f, old(self).accepted@.last(), e))
                || converted_err::<Si::SinkError, E>(e),
    {
        let mut st: State<Fut, Si::SinkItem> = State::Empty;
        core::mem::swap(&mut st, &mut self.state);
        let item: Si::SinkItem;
        match st {
            State::Empty => {
                return Poll::Ready(Ok(()));
            },
            State::Process(mut fut) => {
                match fut.poll() {
                    Poll::Pending => {
                        self.state = State::Process(fut);
                        return Poll::Pending;
                    },
                    Poll::Ready(Err(e)) => {
                        return Poll::Ready(Err(e));
                    },
                    Poll::Ready(Ok(i)) => {
                        item = i;
                    },
                }
            },
            State::Buffered(i) => {
                item = i;
            },
        }
        match self.sink.poll_ready() {
            Poll::Pending => {
                self.state = State::Buffered(item);
                Poll::Pending
            },
            Poll::Ready(Err(e)) => {
                self.state = State::Buffered(item);
                let ghost ge = e;
                let e2 = E::from(e);
                proof {
                    assert(call_ensures(<E as From<Si::SinkError>>::from, (ge,), e2));
                    assert(converted_err::<Si::SinkError, E>(e2));
                }
                Poll::Ready(Err(e2))
            },
            Poll::Ready(Ok(_)) => match self.sink.start_send(item) {
                Ok(_) => Poll::Ready(Ok(())),
                Err(e) => {
                    let ghost ge = e;
                    let e2 = E::from(e);
                    proof {
                        assert(call_ensures(<E as From<Si::SinkError>>::from, (ge,), e2));
                        assert(converted_err::<Si::SinkError, E>(e2));
                    }
                    Poll::Ready(Err(e2))
                },
            },
        }
    }
}

impl<Si, U, Fut, F, E> Sink for With<Si, U, Fut, F>
    where
        Si: Sink,
        F: Fn(U) -> Fut,
        Fut: Future<Output = Result<Si::SinkItem, E>>,
        E: From<Si::SinkError>,
{
    type SinkItem = U;

    type SinkError = E;

    open spec fn sink_inv(&self) -> bool {
        &&& self.sink.sink_inv()
        &&& forall|u: U| #[trigger] call_requires(self.f, (u,))
        &&& forall|u: U, fut: Fut| #[trigger] call_ensures(self.f, (u,), fut)
            ==> fut.inv() && !fut.done()
        &&& match self.state {
            State::Empty => true,
            State::Process(fut) => fut.inv() && !fut.done() && self.accepted@.len() > 0
                && (forall|v: Result<Si::SinkItem, E>| #[trigger] fut.may_resolve(v)
                    ==> match v {
                        Ok(i) => converts::<U, Si::SinkItem, E, Fut, F>(
                            self.f, self.accepted@.last(), i),
                        Err(e) => conversion_fails::<U, Si::SinkItem, E, Fut, F>(
                            self.f, self.accepted@.last(), e),
                    }),
            State::Buffered(i) => self.accepted@.len() > 0
                && converts::<U, Si::SinkItem, E, Fut, F>(self.f, self.accepted@.last(), i),
        }
    }

    open spec fn taken(&self) -> Seq<U> {
        self.accepted@
    }

    open spec fn ready(&self) -> bool {
        self.state is Empty
    }

    fn poll_ready(&mut self) -> (r: Poll<Result<(), E>>)
        ensures
            final(self).f == old(self).f,
            r matches Poll::Ready(Ok(_)) ==> final(self).state is Empty,
            r is Pending ==> !(final(self).state is Empty),
            old(self).state is Empty ==> r matches Poll::Ready(Ok(_)),
            r matches Poll::Ready(Err(e)) ==> (old(self).accepted@.len() > 0
                    && conversion_fails::<U, Si::SinkItem, E, Fut, F>(
                        old(self).f, old(self).accepted@.last(), e))
                || converted_err::<Si::SinkError, E>(e),
            (final(self).sink.taken() == old(self).sink.taken())
                || (old(self).accepted@.len() > 0
                    && exists|i: Si::SinkItem|
                        final(self).sink.taken() == old(self).sink.taken().push(i)
                        && #[trigger] converts::<U, Si::SinkItem, E, Fut, F>(
                            old(self).f, old(self).accepted@.last(), i)),
    {
        self.poll_pipeline()
    }

    fn start_send(&mut self, item: U) -> (r: Result<(), E>)
        ensures
            r is Ok,
            final(self).f == old(self).f,
            final(self).sink == old(self).sink,
            final(self).state matches State::Process(fut)
                && call_ensures(old(self).f, (item,), fut),
    {
        let ghost u = item;
        let fut = (self.f)(item);
        self.state = State::Process(fut);
        self.accepted = Ghost(self.accepted@.push(u));
        Ok(())
    }

    fn poll_flush(&mut self) -> (r: Poll<Result<(), E>>)
        ensures
            final(self).f == old(self).f,
            r matches Poll::Ready(Ok(_)) ==> final(self).state is Empty,
            (final(self).sink.taken() == old(self).sink.taken())
                || (old(self).accepted@.len() > 0
                    && exists|i: Si::SinkItem|
                        final(self).sink.taken() == old(self).sink.taken().push(i)
                        && #[trigger] converts::<U, Si::SinkItem, E, Fut, F>(
                            old(self).f, old(self).accepted@.last(), i)),
            r matches Poll::Ready(Err(e)) ==> (old(self).accepted@.len() > 0
                    && conversion_fails::<U, Si::SinkItem, E, Fut, F>(
                        old(self).f, old(self).accepted@.last(), e))
                || converted_err::<Si::SinkError, E>(e),
    {
        match self.poll_pipeline() {
            Poll::Pending => Poll::Pending,
            Poll::Ready(Err(e)) => Poll::Ready(Err(e)),
            Poll::Ready(Ok(_)) => match self.sink.poll_flush() {
                Poll::Pending => Poll::Pending,
                Poll::Ready(Ok(_)) => Poll::Ready(Ok(())),
                Poll::Ready(Err(e)) => {
                    let ghost ge = e;
                    let e2 = E::from(e);
                    proof {
                        assert(call_ensures(<E as From<Si::SinkError>>::from, (ge,), e2));
                        assert(converted_err::<Si::SinkError, E>(e2));
                    }
                    Poll::Ready(Err(e2))
                },
            },
        }
    }

    fn poll_close(&mut self) -> (r: Poll<Result<(), E>>)
        ensures
            final(self).f == old(self).f,
            r matches Poll::Ready(Ok(_)) ==> final(self).state is Empty,
            (final(self).sink.taken() == old(self).sink.taken())
                || (old(self).accepted@.len() > 0
                    && exists|i: Si::SinkItem|
                        final(self).sink.taken() == old(self).sink.taken().push(i)
                        && #[trigger] converts::<U, Si::SinkItem, E, Fut, F>(
                            old(self).f, old(self).accepted@.last(), i)),
            r matches Poll::Ready(Err(e)) ==> (old(self).accepted@.len() > 0
                    && conversion_fails::<U, Si::SinkItem, E, Fut, F>(
                        old(self).f, old(self).accepted@.last(), e))
                || converted_err::<Si::SinkError, E>(e),
    {
        match self.poll_pipeline() {
            Poll::Pending => Poll::Pending,
            Poll::Ready(Err(e)) => Poll::Ready(Err(e)),
            Poll::Ready(Ok(_)) => match self.sink.poll_close() {
                Poll::Pending => Poll::Pending,
                Poll::Ready(Ok(_)) => Poll::Ready(Ok(())),
                Poll::Ready(Err(e)) => {
                    let ghost ge = e;
                    let e2 = E::from(e);
                    proof {
                        assert(call_ensures(<E as From<Si::SinkError>>::from, (ge,), e2));
                        assert(converted_err::<Si::SinkError, E>(e2));
                    }
                    Poll::Ready(Err(e2))
                },
            },
        }
    }
}

impl<Si, U, Fut, F, E> Stream for With<Si, U, Fut, F>
    where
        Si: Sink + Stream,
        F: Fn(U) -> Fut,
        Fut: Future<Output = Result<Si::SinkItem, E>>,
        E: From<Si::SinkError>,
{
    type Item = <Si as Stream>::Item;

    open spec fn inv(&self) -> bool {
        self.sink.inv()
    }

    open spec fn produced(&self) -> Seq<<Si as Stream>::Item> {
        self.sink.produced()
    }

    open spec fn done(&self) -> bool {
        self.sink.done()
    }

    open spec fn ready_now(&self) -> bool {
        self.sink.ready_now()
    }

    open spec fn remaining(&self) -> nat {
        self.sink.remaining()
    }

    fn poll_next(&mut self) -> (r: Poll<Option<<Si as Stream>::Item>>)
        ensures
            final(self).f == old(self).f,
            final(self).state == old(self).state,
            final(self).accepted == old(self).accepted,
    {
        self.sink.poll_next()
    }
}

} // verus!
