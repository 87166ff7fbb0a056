//! Error mapping for fallible sequence tasks: replace the error payload of
//! each erroring item through a user function, leaving successful items
//! untouched.

use vstd::prelude::*;

use crate::task::{FusedStream, Poll, Sink, Stream, TryStream};

verus! {

/// Relation between an item of the wrapped task and the item this adapter
/// yields for it: success passes through unchanged, an error is one
/// application of `f` to the original error.
pub open spec fn maps_item<T, E1, E2, F>(f: F, orig: Result<T, E1>, out: Result<T, E2>) -> bool
    where F: Fn(E1) -> E2,
{
    match orig {
        Ok(x) => out == Ok::<T, E2>(x),
        Err(e) => out is Err && call_ensures(f, (e,), out->Err_0),
    }
}

/// Sequence task that maps the error payload of each erroring item of a
/// fallible sequence task through a user function.  The mapping is lazy:
/// the function runs only on an error actually produced, exactly once per
/// erroring item, and never on a successful item.
pub struct MapErr<St, E2, F> where St: TryStream {
    /// The wrapped task.
    pub stream: St,
    /// The error mapping.
    pub f: F,
    /// The mapped items yielded so far.
    pub yielded: Ghost<Seq<Result<St::Ok, E2>>>,
}

impl<St, E2, F> MapErr<St, E2, F> where St: TryStream {
    /// Wrap a fallible sequence task with an error mapping.
    pub fn new(stream: St, f: F) -> (r: Self)
        ensures
            r.stream == stream,
            r.f == f,
            r.yielded@ == Seq::<Result<St::Ok, E2>>::empty(),
    {
        MapErr { stream, f, yielded: Ghost(Seq::empty()) }
    }

    /// Get a shared reference to the wrapped task.
    pub fn get_ref(&self) -> (r: &St)
        ensures
            r == self.stream,
    {
        &self.stream
    }

    /// Get an exclusive reference to the wrapped task.
    pub fn get_mut(&mut self) -> &mut St {
        &mut self.stream
    }

    /// Consume this adapter, returning the wrapped task.
    pub fn into_inner(self) -> (r: St)
        ensures
            r == self.stream,
    {
        self.stream
    }
}

impl<St, E2, F> Stream for MapErr<St, E2, F>
    where St: TryStream, F: Fn(St::Error) -> E2,
{
    type Item = Result<St::Ok, E2>;

    open spec fn inv(&self) -> bool {
        &&& self.stream.inv()
        &&& self.yielded@.len() == self.stream.produced().len()
        &&& forall|i: int| 0 <= i < self.yielded@.len()
            ==> #[trigger] maps_item(self.f, self.stream.produced()[i], self.yielded@[i])
        &&& forall|e: St::Error| #[trigger] call_requires(self.f, (e,))
    }

    open spec fn produced(&self) -> Seq<Result<St::Ok, E2>> {
        self.yielded@
    }

    open spec fn done(&self) -> bool {
        self.stream.done()
    }

    open spec fn ready_now(&self) -> bool {
        self.stream.ready_now()
    }

    open spec fn remaining(&self) -> nat {
        self.stream.remaining()
    }

    fn poll_next(&mut self) -> (r: Poll<Option<Result<St::Ok, E2>>>)
        ensures
            final(self).f == old(self).f,
            (match r {
                Poll::Ready(opt) => match opt {
                    Some(out) => exists|orig: Result<St::Ok, St::Error>|
                        final(self).stream.produced() == old(self).stream.produced().push(orig)
                        && #[trigger] maps_item(old(self).f, orig, out),
                    None => final(self).stream.produced() == old(self).stream.produced(),
                },
                Poll::Pending => final(self).stream.produced() == old(self).stream.produced(),
            }),
    {
        match self.stream.poll_next() {
            Poll::Pending => Poll::Pending,
            Poll::Ready(None) => Poll::Ready(None),
            Poll::Ready(Some(res)) => {
                let ghost orig = res;
                let out: Result<St::Ok, E2> = match res {
                    Ok(x) => Ok(x),
                    Err(e) => Err((self.f)(e)),
                };
                self.yielded = Ghost(self.yielded@.push(out));
                proof {
                    assert(maps_item(self.f, orig, out));
                }
                Poll::Ready(Some(out))
            },
        }
    }
}

impl<St, E2, F> FusedStream for MapErr<St, E2, F>
    where St: TryStream + FusedStream, F: Fn(St::Error) -> E2,
{
    fn is_terminated(&self) -> (r: bool) {
        self.stream.is_terminated()
    }
}

impl<St, E2, F> Sink for MapErr<St, E2, F>
    where St: TryStream + Sink, F: Fn(St::Error) -> E2,
{
    type SinkItem = St::SinkItem;

    type SinkError = St::SinkError;

    open spec fn sink_inv(&self) -> bool {
        self.stream.sink_inv()
    }

    open spec fn taken(&self) -> Seq<St::SinkItem> {
        self.stream.taken()
    }

    open spec fn ready(&self) -> bool {
        self.stream.ready()
    }

    fn poll_ready(&mut self) -> (r: Poll<Result<(), St::SinkError>>)
        ensures
            final(self).f == old(self).f,
            final(self).yielded == old(self).yielded,
    {
        self.stream.poll_ready()
    }

    fn start_send(&mut self, item: St::SinkItem) -> (r: Result<(), St::SinkError>)
        ensures
            final(self).f == old(self).f,
            final(self).yielded == old(self).yielded,
    {
        self.stream.start_send(item)
    }

    fn poll_flush(&mut self) -> (r: Poll<Result<(), St::SinkError>>)
        ensures
            final(self).f == old(self).f,
            final(self).yielded == old(self).yielded,
    {
        self.stream.poll_flush()
    }

    fn poll_close(&mut self) -> (r: Poll<Result<(), St::SinkError>>)
        ensures
            final(self).f == old(self).f,
            final(self).yielded == old(self).yielded,
    {
        self.stream.poll_close()
    }
}

} // verus!
