//! Error conversion for consumer tasks: replace the error type of a
//! consumer with any type it converts into, leaving everything else of
//! the consumer untouched.

use vstd::prelude::*;

use crate::task::{Poll, Sink, Stream};

verus! {

/// Consumer task equal to the wrapped consumer except that every error
/// it reports is converted into `E` through the standard conversion.
/// When the wrapped task is also a sequence task, that capability is
/// forwarded verbatim.
pub struct SinkErrInto<Si, E> where Si: Sink {
    /// The wrapped consumer.
    pub sink: Si,
    /// The conversion target appears in no field.
    pub marker: core::marker::PhantomData<E>,
}

/// Whether `e2` is a value the standard conversion can produce from some
/// error of type `E1`.
pub open spec fn converted_err<E1, E2>(e2: E2) -> bool where E2: From<E1> {
    exists|e1: E1| #[trigger] call_ensures(<E2 as From<E1>>::from, (e1,), e2)
}

impl<Si, E> SinkErrInto<Si, E> where Si: Sink, E: From<Si::SinkError> {
    /// Wrap a consumer, converting its errors.
    pub fn new(sink: Si) -> (r: Self)
        ensures
            r.sink == sink,
    {
        SinkErrInto { sink, marker: core::marker::PhantomData }
    }

    /// Get a shared reference to the wrapped consumer.
    pub fn get_ref(&self) -> (r: &Si)
        ensures
            r == self.sink,
    {
        &self.sink
    }

    /// Get an exclusive reference to the wrapped consumer.
    pub fn get_mut(&mut self) -> &mut Si {
        &mut self.sink
    }

    /// Consume this adapter, returning the wrapped consumer.
    pub fn into_inner(self) -> (r: Si)
        ensures
            r == self.sink,
    {
        self.sink
    }
}

impl<Si, E> Sink for SinkErrInto<Si, E> where Si: Sink, E: From<Si::SinkError> {
    type SinkItem = Si::SinkItem;

    type SinkError = E;

    open spec fn sink_inv(&self) -> bool {
        self.sink.sink_inv()
    }

    open spec fn taken(&self) -> Seq<Si::SinkItem> {
        self.sink.taken()
    }

    open spec fn ready(&self) -> bool {
        self.sink.ready()
    }

    fn poll_ready(&mut self) -> (r: Poll<Result<(), E>>)
        ensures
            r matches Poll::Ready(Err(e2)) ==> converted_err::<Si::SinkError, E>(e2),
    {
        match self.sink.poll_ready() {
            Poll::Pending => Poll::Pending,
            Poll::Ready(Ok(_)) => Poll::Ready(Ok(())),
            Poll::Ready(Err(e)) => {
                let ghost ge = e;
                let e2 = E::from(e);
                proof {
                    assert(call_ensures(<E as From<Si::SinkError>>::from, (ge,), e2));
                    assert(converted_err::<Si::SinkError, E>(e2));
                }
                Poll::Ready(Err(e2))
            },
        }
    }

    fn start_send(&mut self, item: Si::SinkItem) -> (r: Result<(), E>)
        ensures
            r matches Err(e2) ==> converted_err::<Si::SinkError, E>(e2),
    {
        match self.sink.start_send(item) {
            Ok(_) => Ok(()),
            Err(e) => {
                let ghost ge = e;
                let e2 = E::from(e);
                proof {
                    assert(call_ensures(<E as From<Si::SinkError>>::from, (ge,), e2));
                    assert(converted_err::<Si::SinkError, E>(e2));
                }
                Err(e2)
            },
        }
    }

    fn poll_flush(&mut self) -> (r: Poll<Result<(), E>>)
        ensures
            r matches Poll::Ready(Err(e2)) ==> converted_err::<Si::SinkError, E>(e2),
    {
        match self.sink.poll_flush() {
            Poll::Pending => Poll::Pending,
            Poll::Ready(Ok(_)) => Poll::Ready(Ok(())),
            Poll::Ready(Err(e)) => {
                let ghost ge = e;
                let e2 = E::from(e);
                proof {
                    assert(call_ensures(<E as From<Si::SinkError>>::from, (ge,), e2));
                    assert(converted_err::<Si::SinkError, E>(e2));
                }
                Poll::Ready(Err(e2))
            },
        }
    }

    fn poll_close(&mut self) -> (r: Poll<Result<(), E>>)
        ensures
            r matches Poll::Ready(Err(e2)) ==> converted_err::<Si::SinkError, E>(e2),
    {
        match self.sink.poll_close() {
            Poll::Pending => Poll::Pending,
            Poll::Ready(Ok(_)) => Poll::Ready(Ok(())),
            Poll::Ready(Err(e)) => {
                let ghost ge = e;
                let e2 = E::from(e);
                proof {
                    assert(call_ensures(<E as From<Si::SinkError>>::from, (ge,), e2));
                    assert(converted_err::<Si::SinkError, E>(e2));
                }
                Poll::Ready(Err(e2))
            },
        }
    }
}

impl<Si, E> Stream for SinkErrInto<Si, E>
    where Si: Sink + Stream, E: From<Si::SinkError>,
{
    type Item = <Si as Stream>::Item;

    open spec fn inv(&self) -> bool {
        self.sink.inv()
    }

    open spec fn produced(&self) -> Seq<<Si as Stream>::Item> {
        self.sink.produced()
    }

    open spec fn done(&self) -> bool {
        self.sink.done()
    }

    open spec fn ready_now(&self) -> bool {
        self.sink.ready_now()
    }

    open spec fn remaining(&self) -> nat {
        self.sink.remaining()
    }

    fn poll_next(&mut self) -> (r: Poll<Option<<Si as Stream>::Item>>) {
        self.sink.poll_next()
    }
}

} // verus!
