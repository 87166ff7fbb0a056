//! Eager aggregation: drain a sequence task into an ordered container and
//! resolve with the full container on exhaustion.

use vstd::prelude::*;

use crate::task::{Future, Poll, Stream};

verus! {

/// Value task that accumulates every item a sequence task produces, in
/// production order, and resolves with the container once the source is
/// exhausted.
pub struct Collect<S> where S: Stream {
    /// The wrapped task.
    pub stream: S,
    /// The items accumulated so far.
    pub items: Vec<S::Item>,
    /// Whether the task has resolved.
    pub fin: bool,
    /// The wrapped task's output history at the moment of wrapping; only
    /// items after this point are aggregated.
    pub base: Ghost<Seq<S::Item>>,
}

/// Wrap a sequence task for aggregation.
pub fn new<S>(s: S) -> (r: Collect<S>) where S: Stream
    ensures
        r.stream == s,
        r.items@ == Seq::<S::Item>::empty(),
        !r.fin,
        r.base@ == s.produced(),
{
    Collect { base: Ghost(s.produced()), stream: s, items: Vec::new(), fin: false }
}

impl<S> Collect<S> where S: Stream {
    /// Consume this adapter, returning the wrapped task.  Whatever was
    /// accumulated so far is discarded.
    pub fn into_inner(self) -> (r: S)
        ensures
            r == self.stream,
    {
        self.stream
    }

    /// Take the accumulator out, leaving an empty one behind.
    fn finish(&mut self) -> (c: Vec<S::Item>)
        ensures
            c@ == old(self).items@,
            final(self).items@ == Seq::<S::Item>::empty(),
            final(self).stream == old(self).stream,
            final(self).fin == old(self).fin,
            final(self).base == old(self).base,
    {
        let mut c: Vec<S::Item> = Vec::new();
        core::mem::swap(&mut c, &mut self.items);
        c
    }
}

impl<S> Future for Collect<S> where S: Stream {
    type Output = Vec<S::Item>;

    open spec fn inv(&self) -> bool {
        &&& self.stream.inv()
        &&& !self.fin ==> self.stream.produced() == self.base@ + self.items@
    }

    open spec fn done(&self) -> bool {
        self.fin
    }

    open spec fn may_resolve(&self, v: Vec<S::Item>) -> bool {
        &&& !self.fin
        &&& self.items@.len() <= v@.len()
        &&& forall|i: int| 0 <= i < self.items@.len() ==> #[trigger] v@[i] == self.items@[i]
    }

    open spec fn ready_now(&self) -> bool {
        self.stream.done()
    }

    fn poll(&mut self) -> (r: Poll<Vec<S::Item>>)
        ensures
            final(self).base == old(self).base,
            (match r {
                Poll::Ready(c) => final(self).stream.done()
                    && final(self).stream.produced() == old(self).base@ + c@
                    && final(self).items@.len() == 0,
                Poll::Pending => !final(self).stream.done(),
            }),
            old(self).stream.done() ==> r is Ready,
            old(self).stream.ready_now() ==> r is Ready
                || final(self).stream.produced().len() > old(self).stream.produced().len(),
    {
        loop
            invariant
                self.stream.inv(),
                !self.fin,
                !old(self).fin,
                self.base == old(self).base,
                self.stream.produced() == self.base@ + self.items@,
                old(self).stream.done() ==> self.stream.done(),
                self.stream.produced().len() >= old(self).stream.produced().len(),
                old(self).items@.len() <= self.items@.len(),
                forall|i: int| 0 <= i < old(self).items@.len()
                    ==> #[trigger] self.items@[i] == old(self).items@[i],
                old(self).stream.ready_now()
                    ==> self.stream.produced().len() > old(self).stream.produced().len()
                        || self.stream.ready_now(),
            decreases self.stream.remaining(),
        {
            match self.stream.poll_next() {
                Poll::Ready(Some(x)) => {
                    proof {
                        assert(self.stream.produced().drop_last() =~= self.base@ + self.items@);
                        assert(self.stream.produced()
                            =~= self.base@ + self.items@.push(self.stream.produced().last()));
                    }
                    self.items.push(x);
                },
                Poll::Ready(None) => {
                    self.fin = true;
                    let ghost pre_items = self.items@;
                    let c = self.finish();
                    proof {
                        assert forall|i: int| 0 <= i < old(self).items@.len()
                            implies #[trigger] c@[i] == old(self).items@[i] by {
                            assert(pre_items[i] == old(self).items@[i]);
                        }
                    }
                    return Poll::Ready(c);
                },
                Poll::Pending => {
                    proof {
                        assert forall|v: Vec<S::Item>| #[trigger] self.may_resolve(v)
                            implies old(self).may_resolve(v) by {
                            assert forall|i: int| 0 <= i < old(self).items@.len()
                                implies #[trigger] v@[i] == old(self).items@[i] by {
                                assert(v@[i] == self.items@[i]);
                                assert(self.items@[i] == old(self).items@[i]);
                            }
                        }
                    }
                    return Poll::Pending;
                },
            }
        }
    }
}

} // verus!

