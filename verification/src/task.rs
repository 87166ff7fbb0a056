//! The task contracts: the poll protocol and the three capability traits
//! that every adapter builds on.
//!
//! A task reports progress through [`Poll`].  Returning `Poll::Pending`
//! promises nothing except that no result was produced this turn; a caller
//! simply polls again later.  All tasks here are fused: once a sequence
//! task has reported exhaustion it keeps reporting it, and a value task
//! that has resolved may not be polled again.

use vstd::prelude::*;

verus! {

/// Outcome of one non-blocking attempt to advance a task.
#[derive(Clone, Copy, Debug, PartialEq, Eq)]
pub enum Poll<T> {
    /// The task made its result available.
    Ready(T),
    /// No progress was possible this turn; poll again later.
    Pending,
}

/// A sequence task: produces zero or more items over time, then signals
/// permanent exhaustion.
///
/// The specification model is the history of the task: `produced()` is the
/// sequence of items yielded so far and `done()` says whether exhaustion
/// has been reported.  Exhaustion is remembered: polling after `done()`
/// reports `Ready(None)` again rather than going wrong.
pub trait Stream: Sized {
    type Item;

    /// Well-formedness of the task state, preserved by every poll.
    spec fn inv(&self) -> bool;

    /// The items yielded so far, oldest first.
    spec fn produced(&self) -> Seq<Self::Item>;

    /// Whether the task has reported permanent exhaustion.
    spec fn done(&self) -> bool;

    /// A state from which the next poll is certain to yield an item.
    spec fn ready_now(&self) -> bool;

    /// An upper bound on the items the task can still yield before it
    /// next pauses or reports exhaustion.  It lets a caller drain the
    /// task in a loop that provably terminates.
    spec fn remaining(&self) -> nat;

    /// One non-blocking step: yield the next item, report exhaustion, or
    /// report that no progress was possible.
    fn poll_next(&mut self) -> (r: Poll<Option<Self::Item>>)
        requires
            old(self).inv(),
        ensures
            final(self).inv(),
            (match r {
                Poll::Ready(opt) => match opt {
                    Some(x) => !old(self).done() && !final(self).done()
                        && final(self).produced() == old(self).produced().push(x),
                    None => final(self).done()
                        && final(self).produced() == old(self).produced(),
                },
                Poll::Pending => !old(self).done() && !final(self).done()
                    && final(self).produced() == old(self).produced(),
            }),
            old(self).done() ==> final(self).done() && r matches Poll::Ready(None),
            old(self).ready_now() ==> r matches Poll::Ready(Some(_)),
            final(self).remaining() <= old(self).remaining(),
            r matches Poll::Ready(Some(_)) ==> final(self).remaining() < old(self).remaining(),
    ;
}

/// A sequence task that can be asked whether it is exhausted without
/// polling it.
pub trait FusedStream: Stream {
    /// Report whether exhaustion has already been reported.
    fn is_terminated(&self) -> (r: bool)
        requires
            self.inv(),
        ensures
            r == self.done(),
    ;
}

/// A value task: eventually produces exactly one result.
///
/// `done()` says whether the one result has been delivered; a resolved
/// task may not be polled again.  `may_resolve(v)` is the set of results
/// the task may still deliver; it only ever shrinks, so a caller that pins
/// the set down at construction knows what any later resolution must be.
pub trait Future: Sized {
    type Output;

    /// Well-formedness of the task state, preserved by every poll.
    spec fn inv(&self) -> bool;

    /// Whether the one result has been delivered.
    spec fn done(&self) -> bool;

    /// The results the task can still deliver.
    spec fn may_resolve(&self, v: Self::Output) -> bool;

    /// A state from which the next poll is certain to resolve.
    spec fn ready_now(&self) -> bool;

    /// One non-blocking step: deliver the result or report that no
    /// progress was possible.
    fn poll(&mut self) -> (r: Poll<Self::Output>)
        requires
            old(self).inv(),
            !old(self).done(),
        ensures
            final(self).inv(),
            (match r {
                Poll::Ready(v) => final(self).done() && old(self).may_resolve(v),
                Poll::Pending => !final(self).done(),
            }),
            forall|v: Self::Output|
                #[trigger] final(self).may_resolve(v) ==> old(self).may_resolve(v),
            old(self).ready_now() ==> r is Ready,
    ;
}

/// A consumer task: accepts items through a three-phase capacity protocol.
///
/// `taken()` is the history of items accepted through `start_send`, and
/// `ready()` says whether a handoff is permitted right now.  A caller must
/// obtain `Ready(Ok)` from `poll_ready` before each `start_send`.
pub trait Sink: Sized {
    type SinkItem;

    type SinkError;

    /// Well-formedness of the consumer state, preserved by every operation.
    spec fn sink_inv(&self) -> bool;

    /// The items accepted so far, oldest first.
    spec fn taken(&self) -> Seq<Self::SinkItem>;

    /// Whether a handoff through `start_send` is permitted right now.
    spec fn ready(&self) -> bool;

    /// Make room for one item: report readiness, an error, or no progress.
    fn poll_ready(&mut self) -> (r: Poll<Result<(), Self::SinkError>>)
        requires
            old(self).sink_inv(),
        ensures
            final(self).sink_inv(),
            final(self).taken() == old(self).taken(),
            r matches Poll::Ready(Ok(_)) ==> final(self).ready(),
            old(self).ready() ==> r matches Poll::Ready(Ok(_)),
    ;

    /// Hand one item over.  Only permitted immediately after `poll_ready`
    /// reported readiness.
    fn start_send(&mut self, item: Self::SinkItem) -> (r: Result<(), Self::SinkError>)
        requires
            old(self).sink_inv(),
            old(self).ready(),
        ensures
            final(self).sink_inv(),
            r is Ok ==> final(self).taken() == old(self).taken().push(item),
            r is Err ==> final(self).taken() == old(self).taken(),
    ;

    /// Drain buffered work.
    fn poll_flush(&mut self) -> (r: Poll<Result<(), Self::SinkError>>)
        requires
            old(self).sink_inv(),
        ensures
            final(self).sink_inv(),
            final(self).taken() == old(self).taken(),
    ;

    /// Drain buffered work and release resources.
    fn poll_close(&mut self) -> (r: Poll<Result<(), Self::SinkError>>)
        requires
            old(self).sink_inv(),
        ensures
            final(self).sink_inv(),
            final(self).taken() == old(self).taken(),
    ;
}

/// A fallible sequence task: one whose items carry an error channel.
pub trait TryStream: Stream<Item = Result<Self::Ok, Self::Error>> {
    type Ok;

    type Error;
}

impl<S, T, E> TryStream for S where S: Stream<Item = Result<T, E>> {
    type Ok = T;

    type Error = E;
}

} // verus!
