//! Composition of value tasks: flatten a task whose result is itself a
//! task into a single task yielding the inner result.

use vstd::prelude::*;
use vstd::pervasive::unreached;

use crate::task::{Future, Poll};

verus! {

/// The two-phase progress state of a [`Flatten`]: first the outer task,
/// then the inner task it resolved to, then nothing.
pub enum Chain<A, B> {
    /// Still polling the outer task.
    First(A),
    /// The outer task resolved; polling the inner task.
    Second(B),
    /// Resolved, or failed; either way permanently finished.
    Done,
}

/// Value task flattening a task-of-a-task: phase one polls the outer
/// task to completion and converts its success payload into the inner
/// task; phase two polls the inner task and yields its result.  If the
/// outer task fails, its error is converted into the inner error type
/// and the inner task never begins.
pub struct Flatten<A, B> {
    /// The progress state: exactly one phase is active at a time.
    pub state: Chain<A, B>,
}

/// Wrap an outer task for flattening.
pub fn new<A, B, E1>(future: A) -> (r: Flatten<A, B>) where A: Future<Output = Result<B, E1>>
    ensures
        r.state == Chain::<A, B>::First(future),
{
    Flatten { state: Chain::First(future) }
}

/// The results a flattening still polling its outer task `a` can deliver:
/// a success or failure of some inner task that `a` can resolve to, or
/// the conversion of some error `a` can fail with — in which case the
/// inner task never begins.
pub open spec fn first_phase_results<A, B, T, E1, E2>(a: A, v: Result<T, E2>) -> bool
    where
        A: Future<Output = Result<B, E1>>,
        B: Future<Output = Result<T, E2>>,
        E2: From<E1>,
{
    match v {
        Ok(t) => exists|b0: B| #[trigger] a.may_resolve(Ok(b0)) && b0.may_resolve(Ok(t)),
        Err(e2) => (exists|e1: E1| #[trigger] a.may_resolve(Err(e1))
                && call_ensures(<E2 as From<E1>>::from, (e1,), e2))
            || (exists|b0: B| #[trigger] a.may_resolve(Ok(b0)) && b0.may_resolve(Err(e2))),
    }
}

impl<A, B, T, E1, E2> Future for Flatten<A, B>
    where
        A: Future<Output = Result<B, E1>>,
        B: Future<Output = Result<T, E2>>,
        E2: From<E1>,
{
    type Output = Result<T, E2>;

    open spec fn inv(&self) -> bool {
        match self.state {
            Chain::First(a) => a.inv() && !a.done()
                && (forall|v: Result<B, E1>| #[trigger] a.may_resolve(v)
                    ==> (v matches Ok(b) ==> b.inv() && !b.done())),
            Chain::Second(b) => b.inv() && !b.done(),
            Chain::Done => true,
        }
    }

    open spec fn done(&self) -> bool {
        self.state is Done
    }

    open spec fn may_resolve(&self, v: Result<T, E2>) -> bool {
        match self.state {
            Chain::First(a) => first_phase_results::<A, B, T, E1, E2>(a, v),
            Chain::Second(b) => b.may_resolve(v),
            Chain::Done => false,
        }
    }

    open spec fn ready_now(&self) -> bool {
        match self.state {
            Chain::First(a) => a.ready_now()
                && (forall|v: Result<B, E1>| #[trigger] a.may_resolve(v)
                    ==> (v matches Ok(b) ==> b.ready_now())),
            Chain::Second(b) => b.ready_now(),
            Chain::Done => false,
        }
    }

    fn poll(&mut self) -> (r: Poll<Result<T, E2>>)
        ensures
            (match r {
                Poll::Ready(res) => final(self).state is Done,
                Poll::Pending => !(final(self).state is Done),
            }),
            old(self).state is First && r is Pending
                ==> final(self).state is First || final(self).state is Second,
            old(self).state is Second && r is Pending ==> final(self).state is Second,
    {
        let ghost pre = *old(self);
        let mut st: Chain<A, B> = Chain::Done;
        core::mem::swap(&mut st, &mut self.state);
        match st {
            Chain::First(mut a) => {
                let ghost a0 = a;
                match a.poll() {
                    Poll::Pending => {
                        self.state = Chain::First(a);
                        proof {
                            assert forall|v: Result<T, E2>| #[trigger] final(self).may_resolve(v)
                                implies pre.may_resolve(v) by {
                                lemma_first_phase_shrinks::<A, B, T, E1, E2>(a0, a, v);
                            }
                        }
                        Poll::Pending
                    },
                    Poll::Ready(Err(e)) => {
                        let ghost ge = e;
                        let e2 = E2::from(e);
                        proof {
                            assert(call_ensures(<E2 as From<E1>>::from, (ge,), e2));
                            assert(pre.may_resolve(Err(e2)));
                        }
                        Poll::Ready(Err(e2))
                    },
                    Poll::Ready(Ok(mut b)) => {
                        let ghost b0 = b;
                        match b.poll() {
                            Poll::Pending => {
                                self.state = Chain::Second(b);
                                proof {
                                    assert forall|v: Result<T, E2>|
                                        #[trigger] final(self).may_resolve(v)
                                        implies pre.may_resolve(v) by {
                                        assert(a0.may_resolve(Ok(b0)) && b0.may_resolve(v));
                                    }
                                }
                                Poll::Pending
                            },
                            Poll::Ready(v) => {
                                proof {
                                    assert(a0.may_resolve(Ok(b0)) && b0.may_resolve(v));
                                    assert(pre.may_resolve(v));
                                }
                                Poll::Ready(v)
                            },
                        }
                    },
                }
            },
            Chain::Second(mut b) => {
                match b.poll() {
                    Poll::Pending => {
                        self.state = Chain::Second(b);
                        Poll::Pending
                    },
                    Poll::Ready(v) => Poll::Ready(v),
                }
            },
            Chain::Done => unreached(),
        }
    }
}

/// When the outer task of a first-phase flattening takes one step without
/// resolving, the set of results the flattening can deliver only shrinks.
proof fn lemma_first_phase_shrinks<A, B, T, E1, E2>(a0: A, a1: A, v: Result<T, E2>)
    where
        A: Future<Output = Result<B, E1>>,
        B: Future<Output = Result<T, E2>>,
        E2: From<E1>,
    requires
        forall|w: Result<B, E1>| #[trigger] a1.may_resolve(w) ==> a0.may_resolve(w),
        first_phase_results::<A, B, T, E1, E2>(a1, v),
    ensures
        first_phase_results::<A, B, T, E1, E2>(a0, v),
{
    match v {
        Ok(t) => {
            let b0 = choose|b0: B| #[trigger] a1.may_resolve(Ok(b0)) && b0.may_resolve(Ok(t));
            assert(a0.may_resolve(Ok(b0)) && b0.may_resolve(Ok(t)));
        },
        Err(e2) => {
            if exists|e1: E1| #[trigger] a1.may_resolve(Err(e1))
                && call_ensures(<E2 as From<E1>>::from, (e1,), e2) {
                let e1 = choose|e1: E1| #[trigger] a1.may_resolve(Err(e1))
                    && call_ensures(<E2 as From<E1>>::from, (e1,), e2);
                assert(a0.may_resolve(Err(e1)));
            } else {
                let b0 = choose|b0: B| #[trigger] a1.may_resolve(Ok(b0))
                    && b0.may_resolve(Err(e2));
                assert(a0.may_resolve(Ok(b0)) && b0.may_resolve(Err(e2)));
            }
        },
    }
}

} // verus!
