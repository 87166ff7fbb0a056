//! Fan-in selection: merge two sequence tasks of the same item type into
//! one, alternating priority so that neither source starves the other.

use vstd::prelude::*;

use crate::task::{FusedStream, Poll, Stream};

verus! {

/// Sequence task merging two sources of the same item type.
///
/// One poll gives the source named by `flag` the first chance; if that
/// source yields, the flag flips so the other source goes first next
/// time, and the second source is not touched this turn.  An item is
/// taken from the second source only when the first yielded nothing.
pub struct Select<St1, St2> where St1: Stream, St2: Stream<Item = St1::Item> {
    /// The first source.
    pub stream1: St1,
    /// The second source.
    pub stream2: St2,
    /// Which source polls first: `stream2` when set, `stream1` otherwise.
    pub flag: bool,
    /// The merged items yielded so far.
    pub yielded: Ghost<Seq<St1::Item>>,
}

/// How one poll of a [`Select`] relates its state before and after to the
/// outcome.  When the priority source yields, the priority flips and the
/// other source is left untouched; an item comes from the non-priority
/// source only when the priority source was not certain to yield.
pub open spec fn select_step<St1, St2>(
    pre: Select<St1, St2>,
    post: Select<St1, St2>,
    r: Poll<Option<St1::Item>>,
) -> bool where St1: Stream, St2: Stream<Item = St1::Item> {
    if !pre.flag {
        match r {
            Poll::Ready(opt) => match opt {
                Some(x) => (!pre.stream1.done()
                    && post.stream1.produced() == pre.stream1.produced().push(x)
                    && post.stream2 == pre.stream2 && post.flag == true)
                    || (!pre.stream1.ready_now() && !pre.stream2.done()
                        && post.stream1.produced() == pre.stream1.produced()
                        && post.stream2.produced() == pre.stream2.produced().push(x)
                        && post.flag == false),
                None => post.stream1.done() && post.stream2.done()
                    && post.stream1.produced() == pre.stream1.produced()
                    && post.stream2.produced() == pre.stream2.produced()
                    && post.flag == pre.flag,
            },
            Poll::Pending => !(post.stream1.done() && post.stream2.done())
                && post.stream1.produced() == pre.stream1.produced()
                && post.stream2.produced() == pre.stream2.produced()
                && post.flag == pre.flag,
        }
    } else {
        match r {
            Poll::Ready(opt) => match opt {
                Some(x) => (!pre.stream2.done()
                    && post.stream2.produced() == pre.stream2.produced().push(x)
                    && post.stream1 == pre.stream1 && post.flag == false)
                    || (!pre.stream2.ready_now() && !pre.stream1.done()
                        && post.stream2.produced() == pre.stream2.produced()
                        && post.stream1.produced() == pre.stream1.produced().push(x)
                        && post.flag == true),
                None => post.stream1.done() && post.stream2.done()
                    && post.stream1.produced() == pre.stream1.produced()
                    && post.stream2.produced() == pre.stream2.produced()
                    && post.flag == pre.flag,
            },
            Poll::Pending => !(post.stream1.done() && post.stream2.done())
                && post.stream1.produced() == pre.stream1.produced()
                && post.stream2.produced() == pre.stream2.produced()
                && post.flag == pre.flag,
        }
    }
}

impl<St1, St2> Select<St1, St2> where St1: Stream, St2: Stream<Item = St1::Item> {
    /// Merge two sources.  The first source has priority to begin with.
    pub fn new(stream1: St1, stream2: St2) -> (r: Select<St1, St2>)
        ensures
            r.stream1 == stream1,
            r.stream2 == stream2,
            r.flag == false,
            r.produced() == Seq::<St1::Item>::empty(),
    {
        Select { stream1, stream2, flag: false, yielded: Ghost(Seq::empty()) }
    }
}

/// Poll `a` first and `b` second, flipping `flag` when `a` yields so the
/// other source has priority next turn.
fn poll_inner<A, B>(flag: &mut bool, a: &mut A, b: &mut B) -> (r: Poll<Option<A::Item>>)
    where A: Stream, B: Stream<Item = A::Item>,
    requires
        old(a).inv(),
        old(b).inv(),
    ensures
        final(a).inv(),
        final(b).inv(),
        (match r {
            Poll::Ready(opt) => match opt {
                Some(x) => (!old(a).done()
                    && final(a).produced() == old(a).produced().push(x)
                    && !final(a).done() && *final(b) == *old(b)
                    && *final(flag) == !*old(flag))
                    || (!old(a).ready_now() && !old(b).done()
                        && final(a).produced() == old(a).produced()
                        && final(b).produced() == old(b).produced().push(x)
                        && !final(b).done() && *final(flag) == *old(flag)),
                None => final(a).done() && final(b).done()
                    && final(a).produced() == old(a).produced()
                    && final(b).produced() == old(b).produced()
                    && *final(flag) == *old(flag),
            },
            Poll::Pending => !(final(a).done() && final(b).done())
                && final(a).produced() == old(a).produced()
                && final(b).produced() == old(b).produced()
                && *final(flag) == *old(flag),
        }),
        old(a).done() && old(b).done() ==> r matches Poll::Ready(None),
        old(a).ready_now() || old(b).ready_now() ==> r matches Poll::Ready(Some(_)),
        final(a).remaining() + final(b).remaining() <= old(a).remaining() + old(b).remaining(),
        r matches Poll::Ready(Some(_)) ==> final(a).remaining() + final(b).remaining()
            < old(a).remaining() + old(b).remaining(),
{
    let a_done: bool;
    match a.poll_next() {
        Poll::Ready(Some(item)) => {
            *flag = !*flag;
            return Poll::Ready(Some(item));
        },
        Poll::Ready(None) => {
            a_done = true;
        },
        Poll::Pending => {
            a_done = false;
        },
    }
    match b.poll_next() {
        Poll::Ready(Some(item)) => Poll::Ready(Some(item)),
        Poll::Ready(None) => if a_done {
            Poll::Ready(None)
        } else {
            Poll::Pending
        },
        Poll::Pending => Poll::Pending,
    }
}

impl<St1, St2> Stream for Select<St1, St2> where St1: Stream, St2: Stream<Item = St1::Item> {
    type Item = St1::Item;

    open spec fn inv(&self) -> bool {
        self.stream1.inv() && self.stream2.inv()
    }

    open spec fn produced(&self) -> Seq<St1::Item> {
        self.yielded@
    }

    open spec fn done(&self) -> bool {
        self.stream1.done() && self.stream2.done()
    }

    open spec fn ready_now(&self) -> bool {
        self.stream1.ready_now() || self.stream2.ready_now()
    }

    open spec fn remaining(&self) -> nat {
        self.stream1.remaining() + self.stream2.remaining()
    }

    fn poll_next(&mut self) -> (r: Poll<Option<St1::Item>>)
        ensures
            select_step(*old(self), *final(self), r),
    {
        let r = if !self.flag {
            poll_inner(&mut self.flag, &mut self.stream1, &mut self.stream2)
        } else {
            poll_inner(&mut self.flag, &mut self.stream2, &mut self.stream1)
        };
        if let Poll::Ready(Some(x)) = &r {
            self.yielded = Ghost(self.yielded@.push(*x));
        }
        r
    }
}

impl<St1, St2> FusedStream for Select<St1, St2>
    where St1: FusedStream, St2: FusedStream<Item = St1::Item>
{
    fn is_terminated(&self) -> (r: bool) {
        self.stream1.is_terminated() && self.stream2.is_terminated()
    }
}

/// Fairness of the selection adapter: across two consecutive polls that
/// both yield, with every source holding a ready item at every poll, the
/// two items never come from the same source.
pub proof fn lemma_select_alternates<St1, St2>(
    s0: Select<St1, St2>,
    s1: Select<St1, St2>,
    s2: Select<St1, St2>,
    x: St1::Item,
    y: St1::Item,
) where St1: Stream, St2: Stream<Item = St1::Item>
    requires
        select_step(s0, s1, Poll::Ready(Some(x))),
        select_step(s1, s2, Poll::Ready(Some(y))),
        s0.stream1.ready_now(),
        s0.stream2.ready_now(),
        s1.stream1.ready_now(),
        s1.stream2.ready_now(),
    ensures
        (s1.stream1.produced() == s0.stream1.produced().push(x)
            && s2.stream2.produced() == s1.stream2.produced().push(y))
        || (s1.stream2.produced() == s0.stream2.produced().push(x)
            && s2.stream1.produced() == s1.stream1.produced().push(y)),
{
}

} // verus!
