//! A leaf value task: resolves to a fixed result after a chosen number of
//! quiet turns.  It is the simplest task that exercises both the pending
//! and the ready path of every value-task adapter.

use vstd::prelude::*;
use vstd::pervasive::unreached;

use crate::task::{Future, Poll};

verus! {

/// Value task that reports no progress `delay` times and then resolves
/// with the stored result, exactly once.
pub struct Eventual<T> {
    /// How many polls will still report no progress.
    pub delay: usize,
    /// The result not yet delivered; empty once resolved.
    pub value: Option<T>,
}

impl<T> Eventual<T> {
    /// A task that resolves with `value` after `delay` quiet polls.
    pub fn new(delay: usize, value: T) -> (r: Self)
        ensures
            r.delay == delay,
            r.value == Some(value),
    {
        Eventual { delay, value: Some(value) }
    }

    /// A task that resolves with `value` on the first poll.
    pub fn now(value: T) -> (r: Self)
        ensures
            r.delay == 0,
            r.value == Some(value),
    {
        Eventual { delay: 0, value: Some(value) }
    }
}

impl<T> Future for Eventual<T> {
    type Output = T;

    open spec fn inv(&self) -> bool {
        true
    }

    open spec fn done(&self) -> bool {
        self.value is None
    }

    open spec fn may_resolve(&self, v: T) -> bool {
        self.value == Some(v)
    }

    open spec fn ready_now(&self) -> bool {
        self.delay == 0 && self.value is Some
    }

    fn poll(&mut self) -> (r: Poll<T>)
        ensures
            old(self).delay > 0 ==> r is Pending
                && final(self).delay == old(self).delay - 1
                && final(self).value == old(self).value,
            old(self).delay == 0 ==> r == Poll::Ready(old(self).value->0)
                && final(self).value is None,
    {
        if self.delay > 0 {
            self.delay = self.delay - 1;
            Poll::Pending
        } else {
            let mut v: Option<T> = None;
            core::mem::swap(&mut v, &mut self.value);
            match v {
                Some(x) => Poll::Ready(x),
                None => unreached(),
            }
        }
    }
}

} // verus!
