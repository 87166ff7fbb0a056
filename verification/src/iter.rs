//! Leaf sequence tasks: an always-ready source over a vector, and a
//! scripted source that can interleave quiet turns, for exercising the
//! pending paths of the adapters.

use vstd::prelude::*;

use crate::task::{FusedStream, Poll, Stream};

verus! {

/// A sequence task that yields the elements of a vector in order, always
/// immediately ready, then reports exhaustion.
pub struct Iter<T> {
    /// The elements not yet yielded, in the order they will come.
    pub items: Vec<T>,
    /// The elements yielded so far.
    pub yielded: Ghost<Seq<T>>,
    /// Whether exhaustion has been reported.
    pub fin: bool,
}

impl<T> Iter<T> {
    /// Wrap a vector as an always-ready sequence task.
    pub fn new(items: Vec<T>) -> (r: Self)
        ensures
            r.inv(),
            r.produced() == Seq::<T>::empty(),
            !r.done(),
            r.items@ == items@,
    {
        Iter { items, yielded: Ghost(Seq::empty()), fin: false }
    }
}

impl<T> Stream for Iter<T> {
    type Item = T;

    open spec fn inv(&self) -> bool {
        self.fin ==> self.items@.len() == 0
    }

    open spec fn produced(&self) -> Seq<T> {
        self.yielded@
    }

    open spec fn done(&self) -> bool {
        self.fin
    }

    open spec fn ready_now(&self) -> bool {
        self.items@.len() > 0
    }

    open spec fn remaining(&self) -> nat {
        self.items@.len()
    }

    fn poll_next(&mut self) -> (r: Poll<Option<T>>)
        ensures
            old(self).items@.len() > 0 ==> r == Poll::Ready(Some(old(self).items@[0]))
                && final(self).items@ == old(self).items@.skip(1),
            old(self).items@.len() == 0 ==> r == Poll::<Option<T>>::Ready(None)
                && final(self).items@ == old(self).items@,
    {
        if self.items.len() > 0 {
            let x = self.items.remove(0);
            self.yielded = Ghost(self.yielded@.push(x));
            Poll::Ready(Some(x))
        } else {
            self.fin = true;
            Poll::Ready(None)
        }
    }
}

impl<T> FusedStream for Iter<T> {
    fn is_terminated(&self) -> (r: bool) {
        self.fin
    }
}

/// One step of a scripted source: either yield an item or stay quiet for
/// a turn.
#[derive(Clone, Copy, Debug, PartialEq, Eq)]
pub enum Step<T> {
    /// Yield this item.
    Item(T),
    /// Report that no progress was possible this turn.
    Quiet,
}

/// A sequence task that follows a script: each poll consumes the next
/// step, and once the script runs out the task reports exhaustion.
pub struct Script<T> {
    /// The steps not yet played, in order.
    pub steps: Vec<Step<T>>,
    /// The items yielded so far.
    pub yielded: Ghost<Seq<T>>,
    /// Whether exhaustion has been reported.
    pub fin: bool,
}

impl<T> Script<T> {
    /// Wrap a script as a sequence task.
    pub fn new(steps: Vec<Step<T>>) -> (r: Self)
        ensures
            r.inv(),
            r.produced() == Seq::<T>::empty(),
            !r.done(),
            r.steps@ == steps@,
    {
        Script { steps, yielded: Ghost(Seq::empty()), fin: false }
    }
}

impl<T> Stream for Script<T> {
    type Item = T;

    open spec fn inv(&self) -> bool {
        self.fin ==> self.steps@.len() == 0
    }

    open spec fn produced(&self) -> Seq<T> {
        self.yielded@
    }

    open spec fn done(&self) -> bool {
        self.fin
    }

    open spec fn ready_now(&self) -> bool {
        self.steps@.len() > 0 && self.steps@[0] is Item
    }

    open spec fn remaining(&self) -> nat {
        self.steps@.len()
    }

    fn poll_next(&mut self) -> (r: Poll<Option<T>>)
        ensures
            final(self).steps@ == if old(self).steps@.len() > 0 {
                old(self).steps@.skip(1)
            } else {
                old(self).steps@
            },
            old(self).steps@.len() > 0 ==> (old(self).steps@[0] matches Step::Item(x)
                ==> r == Poll::Ready(Some(x))),
            old(self).steps@.len() > 0 && old(self).steps@[0] is Quiet
                ==> r == Poll::<Option<T>>::Pending,
            old(self).steps@.len() == 0 ==> r == Poll::<Option<T>>::Ready(None),
    {
        if self.steps.len() > 0 {
            match self.steps.remove(0) {
                Step::Item(x) => {
                    self.yielded = Ghost(self.yielded@.push(x));
                    Poll::Ready(Some(x))
                },
                Step::Quiet => Poll::Pending,
            }
        } else {
            self.fin = true;
            Poll::Ready(None)
        }
    }
}

impl<T> FusedStream for Script<T> {
    fn is_terminated(&self) -> (r: bool) {
        self.fin
    }
}

} // verus!
