//! Short-circuiting aggregation: drain a fallible sequence task into an
//! ordered container, stopping at the first error and discarding every
//! partial result when one comes.

use vstd::prelude::*;

use crate::task::{Future, FusedStream, Poll, Stream, TryStream};

verus! {

/// Value task that drains a fallible sequence task.  On exhaustion it
/// resolves with every successful payload in production order; on the
/// first error it resolves with that error and discards the accumulator.
pub struct TryCollect<St> where St: TryStream {
    /// The wrapped task.
    pub stream: St,
    /// The successful payloads accumulated so far.
    pub items: Vec<St::Ok>,
    /// Whether the task has resolved.
    pub fin: bool,
    /// The wrapped task's output history at the moment of wrapping; only
    /// items after this point are aggregated.
    pub base: Ghost<Seq<Result<St::Ok, St::Error>>>,
}

impl<St> TryCollect<St> where St: TryStream {
    /// Wrap a fallible sequence task for aggregation.
    pub fn new(s: St) -> (r: Self)
        ensures
            r.stream == s,
            r.items@ == Seq::<St::Ok>::empty(),
            !r.fin,
            r.base@ == s.produced(),
    {
        TryCollect { base: Ghost(s.produced()), stream: s, items: Vec::new(), fin: false }
    }

    /// Take the accumulator out, leaving an empty one behind.
    pub fn finish(&mut self) -> (c: Vec<St::Ok>)
        ensures
            c@ == old(self).items@,
            final(self).items@ == Seq::<St::Ok>::empty(),
            final(self).stream == old(self).stream,
            final(self).fin == old(self).fin,
            final(self).base == old(self).base,
    {
        let mut c: Vec<St::Ok> = Vec::new();
        core::mem::swap(&mut c, &mut self.items);
        c
    }

    /// Consume this adapter, returning the wrapped task.  Whatever was
    /// accumulated so far is discarded.
    pub fn into_inner(self) -> (r: St)
        ensures
            r == self.stream,
    {
        self.stream
    }

    /// Report whether the wrapped task is already exhausted.
    pub fn is_terminated(&self) -> (r: bool) where St: FusedStream
        requires
            self.stream.inv(),
        ensures
            r == self.stream.done(),
    {
        self.stream.is_terminated()
    }
}

impl<St> Future for TryCollect<St> where St: TryStream {
    type Output = Result<Vec<St::Ok>, St::Error>;

    open spec fn inv(&self) -> bool {
        &&& self.stream.inv()
        &&& !self.fin ==> {
            &&& self.base@.len() + self.items@.len() == self.stream.produced().len()
            &&& self.stream.produced().take(self.base@.len() as int) == self.base@
            &&& forall|i: int| 0 <= i < self.items@.len()
                ==> self.stream.produced()[self.base@.len() + i]
                    == Ok::<St::Ok, St::Error>(#[trigger] self.items@[i])
        }
    }

    open spec fn done(&self) -> bool {
        self.fin
    }

    open spec fn may_resolve(&self, v: Result<Vec<St::Ok>, St::Error>) -> bool {
        &&& !self.fin
        &&& v matches Ok(c) ==> self.items@.len() <= c@.len()
            && (forall|i: int| 0 <= i < self.items@.len() ==> #[trigger] c@[i] == self.items@[i])
    }

    open spec fn ready_now(&self) -> bool {
        self.stream.done()
    }

    fn poll(&mut self) -> (r: Poll<Result<Vec<St::Ok>, St::Error>>)
        ensures
            final(self).base == old(self).base,
            (match r {
                Poll::Ready(res) => final(self).items@.len() == 0 && match res {
                    Ok(c) => final(self).stream.done()
                        && c@.len() + old(self).base@.len() == final(self).stream.produced().len()
                        && (forall|i: int| 0 <= i < c@.len()
                            ==> final(self).stream.produced()[old(self).base@.len() + i]
                                == Ok::<St::Ok, St::Error>(#[trigger] c@[i])),
                    Err(e) => final(self).stream.produced().len() > old(self).base@.len()
                        && final(self).stream.produced().last() == Err::<St::Ok, St::Error>(e)
                        && (forall|i: int| old(self).base@.len() <= i
                                < final(self).stream.produced().len() - 1
                            ==> #[trigger] final(self).stream.produced()[i] is Ok),
                },
                Poll::Pending => !final(self).stream.done(),
            }),
            old(self).stream.done() ==> r is Ready,
            old(self).stream.ready_now() ==> r is Ready
                || final(self).stream.produced().len() > old(self).stream.produced().len(),
    {
        loop
            invariant
                self.stream.inv(),
                !self.fin,
                !old(self).fin,
                self.base == old(self).base,
                self.base@.len() + self.items@.len() == self.stream.produced().len(),
                self.stream.produced().take(self.base@.len() as int) == self.base@,
                forall|i: int| 0 <= i < self.items@.len()
                    ==> self.stream.produced()[self.base@.len() + i]
                        == Ok::<St::Ok, St::Error>(#[trigger] self.items@[i]),
                old(self).stream.done() ==> self.stream.done(),
                self.stream.produced().len() >= old(self).stream.produced().len(),
                old(self).items@.len() <= self.items@.len(),
                forall|i: int| 0 <= i < old(self).items@.len()
                    ==> #[trigger] self.items@[i] == old(self).items@[i],
                old(self).stream.ready_now()
                    ==> self.stream.produced().len() > old(self).stream.produced().len()
                        || self.stream.ready_now(),
            decreases self.stream.remaining(),
        {
            match self.stream.poll_next() {
                Poll::Ready(Some(res)) => match res {
                    Ok(x) => {
                        proof {
                            assert(self.stream.produced().take(self.base@.len() as int)
                                =~= self.base@);
                        }
                        self.items.push(x);
                    },
                    Err(e) => {
                        proof {
                            let fin_prod = self.stream.produced();
                            let prev = fin_prod.drop_last();
                            let b = self.base@.len() as int;
                            assert forall|i: int| b <= i < fin_prod.len() - 1
                                implies #[trigger] fin_prod[i] is Ok by {
                                let j = i - b;
                                assert(prev[b + j] == Ok::<St::Ok, St::Error>(self.items@[j]));
                                assert(fin_prod[i] == prev[i]);
                            };
                        }
                        self.items = Vec::new();
                        self.fin = true;
                        return Poll::Ready(Err(e));
                    },
                },
                Poll::Ready(None) => {
                    self.fin = true;
                    let ghost pre_items = self.items@;
                    let c = self.finish();
                    proof {
                        assert forall|i: int| 0 <= i < old(self).items@.len()
                            implies #[trigger] c@[i] == old(self).items@[i] by {
                            assert(pre_items[i] == old(self).items@[i]);
                        }
                    }
                    return Poll::Ready(Ok(c));
                },
                Poll::Pending => {
                    proof {
                        assert forall|v: Result<Vec<St::Ok>, St::Error>|
                            #[trigger] self.may_resolve(v)
                            implies old(self).may_resolve(v) by {
                            if v is Ok {
                                let c = v->Ok_0;
                                assert forall|i: int| 0 <= i < old(self).items@.len()
                                    implies #[trigger] c@[i] == old(self).items@[i] by {
                                    assert(c@[i] == self.items@[i]);
                                    assert(self.items@[i] == old(self).items@[i]);
                                }
                            }
                        }
                    }
                    return Poll::Pending;
                },
            }
        }
    }
}

} // verus!
