use std::cell::Cell;

use futures::collect;
use futures::err_into::SinkErrInto;
use futures::eventual::Eventual;
use futures::flatten;
use futures::iter::{Iter, Script, Step};
use futures::map_err::MapErr;
use futures::select::Select;
use futures::select_next_some::SelectNextSome;
use futures::sinks::{Pipe, RejectSink, VecSink, PIPE_CLOSED};
use futures::task::{Future, FusedStream, Poll, Sink, Stream};
use futures::try_collect::TryCollect;
use futures::with::With;

#[test]
fn collect_totality() {
    let src = Iter::new(vec![1, 2, 3]);
    let mut c = collect::new(src);
    assert_eq!(c.poll(), Poll::Ready(vec![1, 2, 3]));
}

#[test]
fn collect_across_quiet_turns() {
    let src = Script::new(vec![Step::Item(1), Step::Quiet, Step::Item(2)]);
    let mut c = collect::new(src);
    assert_eq!(c.poll(), Poll::Pending);
    assert_eq!(c.poll(), Poll::Ready(vec![1, 2]));
}

#[test]
fn try_collect_short_circuit() {
    let src: Iter<Result<i32, u32>> = Iter::new(vec![Ok(1), Ok(2), Err(7), Ok(3)]);
    let mut tc = TryCollect::new(src);
    assert_eq!(tc.poll(), Poll::Ready(Err(7)));
    // the item after the error was never taken from the source,
    // and the partial accumulator was discarded
    assert_eq!(tc.stream.items, vec![Ok(3)]);
    assert!(tc.items.is_empty());
}

#[test]
fn try_collect_success() {
    let src: Iter<Result<i32, u32>> = Iter::new(vec![Ok(4), Ok(5)]);
    let mut tc = TryCollect::new(src);
    assert_eq!(tc.poll(), Poll::Ready(Ok(vec![4, 5])));
}

#[test]
fn try_collect_finish_empties_accumulator() {
    let src: Iter<Result<i32, u32>> = Iter::new(vec![]);
    let mut tc = TryCollect::new(src);
    tc.items.push(9);
    assert_eq!(tc.finish(), vec![9]);
    assert!(tc.items.is_empty());
}

#[test]
fn select_alternates_between_ready_sources() {
    let a = Iter::new(vec![1, 2]);
    let b = Iter::new(vec![10, 20]);
    let mut s = Select::new(a, b);
    assert_eq!(s.poll_next(), Poll::Ready(Some(1)));
    assert_eq!(s.poll_next(), Poll::Ready(Some(10)));
    assert_eq!(s.poll_next(), Poll::Ready(Some(2)));
    assert_eq!(s.poll_next(), Poll::Ready(Some(20)));
    assert_eq!(s.poll_next(), Poll::Ready(None));
}

#[test]
fn select_takes_second_source_when_first_is_quiet() {
    let a = Script::new(vec![Step::Quiet, Step::Item(1)]);
    let b = Iter::new(vec![10]);
    let mut s = Select::new(a, b);
    // the quiet first source does not hold the ready second source up,
    // and producing from the second source does not move priority
    assert_eq!(s.poll_next(), Poll::Ready(Some(10)));
    assert_eq!(s.poll_next(), Poll::Ready(Some(1)));
    assert!(!s.is_terminated());
    assert_eq!(s.poll_next(), Poll::Ready(None));
    assert!(s.is_terminated());
}

#[test]
fn select_pends_while_either_source_may_yield() {
    let a = Script::new(vec![Step::Quiet]);
    let b = Script::new(vec![Step::Quiet, Step::Item(3)]);
    let mut s = Select::new(a, b);
    assert_eq!(s.poll_next(), Poll::Pending);
    assert_eq!(s.poll_next(), Poll::Ready(Some(3)));
    assert_eq!(s.poll_next(), Poll::Ready(None));
}

#[test]
fn map_err_maps_only_errors() {
    let src: Iter<Result<i32, u32>> = Iter::new(vec![Ok(1), Err(2), Ok(3)]);
    let mut m = MapErr::new(src, |e: u32| (e as u64) + 100);
    assert_eq!(m.poll_next(), Poll::Ready(Some(Ok(1))));
    assert_eq!(m.poll_next(), Poll::Ready(Some(Err(102))));
    assert_eq!(m.poll_next(), Poll::Ready(Some(Ok(3))));
    assert_eq!(m.poll_next(), Poll::Ready(None));
    assert!(m.is_terminated());
}

#[test]
fn map_err_invokes_mapping_once_per_erroring_item() {
    let calls = Cell::new(0u32);
    let src: Iter<Result<i32, u32>> = Iter::new(vec![Ok(1), Err(2), Ok(3), Err(4)]);
    let mut m = MapErr::new(src, |e: u32| {
        calls.set(calls.get() + 1);
        e as u64
    });
    while m.poll_next() != Poll::Ready(None) {}
    assert_eq!(calls.get(), 2);
}

#[test]
fn with_backpressure_one_slot() {
    let f = |u: i32| Eventual::new(1, Ok::<i32, u64>(u * 2));
    let mut w = With::new(VecSink::new(), f);
    assert_eq!(w.poll_ready(), Poll::Ready(Ok(())));
    assert_eq!(w.start_send(3), Ok(()));
    // the conversion task is still running: not ready for another item
    assert_eq!(w.poll_ready(), Poll::Pending);
    // conversion done, item handed to the wrapped consumer: ready again
    assert_eq!(w.poll_ready(), Poll::Ready(Ok(())));
    assert_eq!(w.get_ref().items, vec![6]);
}

#[test]
fn with_conversion_failure_reported() {
    let f = |_u: i32| Eventual::now(Err::<i32, u64>(9));
    let mut w = With::new(VecSink::new(), f);
    assert_eq!(w.start_send(1), Ok(()));
    assert_eq!(w.poll_ready(), Poll::Ready(Err(9)));
    // the failed item was dropped; the slot is empty again
    assert_eq!(w.poll_ready(), Poll::Ready(Ok(())));
    assert!(w.get_ref().items.is_empty());
}

#[test]
fn with_flush_drives_pipeline_first() {
    let f = |u: i32| Eventual::now(Ok::<i32, u64>(u + 1));
    let mut w = With::new(VecSink::new(), f);
    assert_eq!(w.start_send(41), Ok(()));
    assert_eq!(w.poll_flush(), Poll::Ready(Ok(())));
    assert_eq!(w.get_ref().items, vec![42]);
    assert_eq!(w.poll_close(), Poll::Ready(Ok(())));
}

#[test]
fn with_accessors() {
    let f = |u: i32| Eventual::now(Ok::<i32, u64>(u));
    let mut w = With::new(VecSink::new(), f);
    assert_eq!(w.start_send(7), Ok(()));
    assert_eq!(w.poll_ready(), Poll::Ready(Ok(())));
    w.get_mut().items.push(8);
    let sink = w.into_inner();
    assert_eq!(sink.items, vec![7, 8]);
}

#[test]
fn err_into_converts_the_error_channel() {
    let rs: RejectSink<i32> = RejectSink::new(5);
    let mut s: SinkErrInto<_, u64> = SinkErrInto::new(rs);
    assert_eq!(s.poll_ready(), Poll::Ready(Err(5u64)));
    assert_eq!(s.poll_flush(), Poll::Ready(Err(5u64)));
    assert_eq!(s.poll_close(), Poll::Ready(Err(5u64)));
    assert_eq!(s.get_ref().code, 5);
}

#[test]
fn err_into_forwards_the_stream_side() {
    let pipe: Pipe<i32> = Pipe::new();
    let mut s: SinkErrInto<_, u64> = SinkErrInto::new(pipe);
    assert_eq!(s.poll_next(), Poll::Pending);
    assert_eq!(s.poll_ready(), Poll::Ready(Ok(())));
    assert_eq!(s.start_send(1), Ok(()));
    assert_eq!(s.poll_ready(), Poll::Ready(Ok(())));
    assert_eq!(s.start_send(2), Ok(()));
    assert_eq!(s.poll_next(), Poll::Ready(Some(1)));
    assert_eq!(s.poll_next(), Poll::Ready(Some(2)));
    assert_eq!(s.poll_close(), Poll::Ready(Ok(())));
    assert_eq!(s.poll_next(), Poll::Ready(None));
    assert_eq!(s.poll_ready(), Poll::Ready(Err(PIPE_CLOSED as u64)));
    let pipe = s.into_inner();
    assert!(pipe.closed);
}

#[test]
fn map_err_forwards_the_sink_side() {
    let pipe: Pipe<Result<i32, u32>> = Pipe::new();
    let mut m = MapErr::new(pipe, |e: u32| (e as u64) + 100);
    assert_eq!(m.poll_ready(), Poll::Ready(Ok(())));
    assert_eq!(m.start_send(Ok(5)), Ok(()));
    assert_eq!(m.poll_ready(), Poll::Ready(Ok(())));
    assert_eq!(m.start_send(Err(2)), Ok(()));
    // items loop back out with only the error payload mapped
    assert_eq!(m.poll_next(), Poll::Ready(Some(Ok(5))));
    assert_eq!(m.poll_next(), Poll::Ready(Some(Err(102))));
    assert_eq!(m.poll_flush(), Poll::Ready(Ok(())));
}

#[test]
fn flatten_outer_error_skips_inner() {
    let outer: Eventual<Result<Eventual<Result<i32, u64>>, u32>> = Eventual::now(Err(3));
    let mut f = flatten::new(outer);
    assert_eq!(f.poll(), Poll::Ready(Err(3u64)));
}

#[test]
fn flatten_two_phases() {
    let inner = Eventual::new(1, Ok::<i32, u64>(42));
    let outer: Eventual<Result<_, u32>> = Eventual::new(1, Ok(inner));
    let mut f = flatten::new(outer);
    assert_eq!(f.poll(), Poll::Pending);
    assert_eq!(f.poll(), Poll::Pending);
    assert_eq!(f.poll(), Poll::Ready(Ok(42)));
}

#[test]
fn flatten_inner_error() {
    let inner = Eventual::now(Err::<i32, u64>(8));
    let outer: Eventual<Result<_, u32>> = Eventual::now(Ok(inner));
    let mut f = flatten::new(outer);
    assert_eq!(f.poll(), Poll::Ready(Err(8u64)));
}

#[test]
fn select_next_some_resolves_with_next_item() {
    let it = Iter::new(vec![5, 6]);
    let mut sns = SelectNextSome::new(it);
    assert!(!sns.is_terminated());
    assert_eq!(sns.poll(), Poll::Ready(5));
    assert!(sns.is_terminated());
    let mut sns = SelectNextSome::new(sns.into_inner());
    assert_eq!(sns.poll(), Poll::Ready(6));
}

#[test]
fn select_next_some_pends_on_exhausted_source() {
    let it: Iter<i32> = Iter::new(vec![]);
    let mut sns = SelectNextSome::new(it);
    assert_eq!(sns.poll(), Poll::Pending);
    assert!(sns.is_terminated());
}

#[test]
fn eventual_resolves_exactly_once() {
    let mut e = Eventual::new(2, 11);
    assert_eq!(e.poll(), Poll::Pending);
    assert_eq!(e.poll(), Poll::Pending);
    assert_eq!(e.poll(), Poll::Ready(11));
    assert_eq!(e.value, None);
}

#[test]
fn pipe_loops_items_back_in_order() {
    let mut p: Pipe<i32> = Pipe::new();
    assert_eq!(p.poll_next(), Poll::Pending);
    assert_eq!(p.poll_ready(), Poll::Ready(Ok(())));
    assert_eq!(p.start_send(1), Ok(()));
    assert_eq!(p.poll_flush(), Poll::Pending);
    assert_eq!(p.poll_next(), Poll::Ready(Some(1)));
    assert_eq!(p.poll_flush(), Poll::Ready(Ok(())));
    assert_eq!(p.start_send(2), Ok(()));
    assert_eq!(p.poll_close(), Poll::Pending);
    assert_eq!(p.poll_next(), Poll::Ready(Some(2)));
    assert_eq!(p.poll_next(), Poll::Ready(None));
    assert_eq!(p.poll_next(), Poll::Ready(None));
}

#[test]
fn iter_reports_exhaustion_and_stays_exhausted() {
    let mut it = Iter::new(vec![1]);
    assert!(!it.is_terminated());
    assert_eq!(it.poll_next(), Poll::Ready(Some(1)));
    assert_eq!(it.poll_next(), Poll::Ready(None));
    assert!(it.is_terminated());
    assert_eq!(it.poll_next(), Poll::Ready(None));
}

#[test]
fn try_collect_over_map_err_composes() {
    let src: Iter<Result<i32, u32>> = Iter::new(vec![Ok(1), Err(2), Ok(3)]);
    let m = MapErr::new(src, |e: u32| (e as u64) + 100);
    let mut tc = TryCollect::new(m);
    assert_eq!(tc.poll(), Poll::Ready(Err(102u64)));
}

#[test]
fn collect_over_select_composes() {
    let a = Iter::new(vec![1, 2]);
    let b = Iter::new(vec![10, 20]);
    let mut c = collect::new(Select::new(a, b));
    assert_eq!(c.poll(), Poll::Ready(vec![1, 10, 2, 20]));
}

#[test]
fn select_next_some_over_select_composes() {
    let a = Script::new(vec![Step::Quiet, Step::Item(1)]);
    let b = Iter::new(vec![10]);
    let mut sns = SelectNextSome::new(Select::new(a, b));
    assert_eq!(sns.poll(), Poll::Ready(10));
}

#[test]
fn collect_resolves_at_once_on_exhausted_source() {
    let mut it = Iter::new(vec![1]);
    assert_eq!(it.poll_next(), Poll::Ready(Some(1)));
    assert_eq!(it.poll_next(), Poll::Ready(None));
    let mut c = collect::new(it);
    assert_eq!(c.poll(), Poll::Ready(vec![]));
}

#[test]
fn try_collect_resolves_at_once_on_exhausted_source() {
    let mut it: Iter<Result<i32, u32>> = Iter::new(vec![]);
    assert_eq!(it.poll_next(), Poll::Ready(None));
    let mut tc = TryCollect::new(it);
    assert_eq!(tc.poll(), Poll::Ready(Ok(vec![])));
}
