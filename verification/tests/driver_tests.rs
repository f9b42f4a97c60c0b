use try_buffer_unordered::driver::TryBufferUnordered;
use try_buffer_unordered::mux::{ModelOp, MuxCue, ScriptedMux};
use try_buffer_unordered::poll::{SourcePoll, Step};
use try_buffer_unordered::source::ScriptedSource;

type Op = ModelOp<u32, &'static str>;
type Src = ScriptedSource<Op, &'static str>;
type Pool = ScriptedMux<u32, &'static str>;

fn ok(v: u32) -> SourcePoll<Op, &'static str> {
    SourcePoll::Op(ModelOp { outcome: Ok(v) })
}

fn bad(e: &'static str) -> SourcePoll<Op, &'static str> {
    SourcePoll::Op(ModelOp { outcome: Err(e) })
}

#[test]
fn capacity_two_completion_order() {
    // Capacity 2; the source yields items 1, 2, 3 and then exhausts. Items 1
    // and 2 are admitted first; 2 completes before 1, so its result comes
    // first; then 3 is admitted and completes; 1 completes last; finally the
    // driver reports permanent completion.
    let src = Src::new(vec![ok(1), ok(2), ok(3)]);
    let pool = Pool::new(vec![MuxCue::Take(1), MuxCue::Take(1), MuxCue::Take(0)]);
    let mut d = TryBufferUnordered::new(src, pool, Some(2));

    assert_eq!(d.poll_next(), Step::Emitted(Ok(2)));
    assert!(d.in_flight() <= 2);
    assert_eq!(d.poll_next(), Step::Emitted(Ok(3)));
    assert!(d.in_flight() <= 2);
    assert_eq!(d.poll_next(), Step::Emitted(Ok(1)));
    assert_eq!(d.poll_next(), Step::Done);
    assert_eq!(d.poll_next(), Step::Done);
}

#[test]
fn error_does_not_abort_pipeline() {
    // Capacity 1; the first item fails. The driver emits its error, and on
    // the next call keeps going: no implicit pipeline abort.
    let src = Src::new(vec![bad("x failed"), SourcePoll::Pending, ok(9)]);
    let pool = Pool::new(vec![MuxCue::Take(0), MuxCue::Hold, MuxCue::Take(0)]);
    let mut d = TryBufferUnordered::new(src, pool, Some(1));

    assert_eq!(d.poll_next(), Step::Emitted(Err("x failed")));
    assert_eq!(d.poll_next(), Step::Pending);
    assert_eq!(d.poll_next(), Step::Emitted(Ok(9)));
    assert_eq!(d.poll_next(), Step::Done);
}

#[test]
fn empty_source_done_immediately() {
    // A source that is exhausted from the start: the first call already
    // reports permanent completion, and so does every later one.
    let src = Src::new(Vec::new());
    let pool = Pool::new(Vec::new());
    let mut d = TryBufferUnordered::new(src, pool, None);

    assert_eq!(d.poll_next(), Step::Done);
    assert_eq!(d.poll_next(), Step::Done);
    assert_eq!(d.poll_next(), Step::Done);
}

#[test]
fn never_completing_op_stays_pending() {
    // One admitted operation that never completes, capacity 1: every call
    // after admission reports transient unavailability, never a spurious
    // completion or termination.
    let src = Src::new(vec![ok(5)]);
    let pool = Pool::new(Vec::new());
    let mut d = TryBufferUnordered::new(src, pool, Some(1));

    for _ in 0..5 {
        assert_eq!(d.poll_next(), Step::Pending);
        assert_eq!(d.in_flight(), 1);
    }
}

#[test]
fn source_error_preempts_ready_result() {
    // The multiplexer is cued to complete an operation, but in the same call
    // the source fails: the source error is emitted first, and the completed
    // result is neither consumed nor lost — it comes out on the next call.
    let src = Src::new(vec![ok(4), SourcePoll::Failed("upstream broke")]);
    let pool = Pool::new(vec![MuxCue::Take(0)]);
    let mut d = TryBufferUnordered::new(src, pool, None);

    assert_eq!(d.poll_next(), Step::Emitted(Err("upstream broke")));
    assert_eq!(d.in_flight(), 1);
    assert_eq!(d.poll_next(), Step::Emitted(Ok(4)));
    assert_eq!(d.poll_next(), Step::Done);
}

#[test]
fn unbounded_admits_all_available() {
    // No capacity bound: one call admits every currently available item
    // before consulting the multiplexer.
    let src = Src::new(vec![ok(1), ok(2), ok(3), ok(4), ok(5), SourcePoll::Pending]);
    let pool = Pool::new(Vec::new());
    let mut d = TryBufferUnordered::new(src, pool, None);

    assert_eq!(d.poll_next(), Step::Pending);
    assert_eq!(d.in_flight(), 5);
}

#[test]
fn zero_capacity_means_unbounded() {
    // A bound of zero is normalized to "unbounded".
    let src = Src::new(vec![ok(1), ok(2), ok(3), SourcePoll::Pending]);
    let pool = Pool::new(Vec::new());
    let mut d = TryBufferUnordered::new(src, pool, Some(0));

    assert_eq!(d.poll_next(), Step::Pending);
    assert_eq!(d.in_flight(), 3);
}

#[test]
fn capacity_bound_never_exceeded() {
    // Capacity 2 with plenty of items on offer: the pool's occupancy never
    // exceeds 2 at the moment any call returns.
    let src = Src::new(vec![ok(1), ok(2), ok(3), ok(4), ok(5), ok(6)]);
    let pool = Pool::new(vec![MuxCue::Hold, MuxCue::Hold, MuxCue::Take(0), MuxCue::Take(0)]);
    let mut d = TryBufferUnordered::new(src, pool, Some(2));

    assert_eq!(d.poll_next(), Step::Pending);
    assert_eq!(d.in_flight(), 2);
    assert_eq!(d.poll_next(), Step::Pending);
    assert_eq!(d.in_flight(), 2);
    assert_eq!(d.poll_next(), Step::Emitted(Ok(1)));
    assert!(d.in_flight() <= 2);
    assert_eq!(d.poll_next(), Step::Emitted(Ok(2)));
    assert!(d.in_flight() <= 2);
}

#[test]
fn fused_source_not_polled_after_end() {
    // Once the wrapped source has reported the end of its sequence, later
    // driver calls never poll it again.
    let src = Src::new(vec![ok(8)]);
    let pool = Pool::new(vec![MuxCue::Take(0)]);
    let mut d = TryBufferUnordered::new(src, pool, None);

    assert_eq!(d.poll_next(), Step::Emitted(Ok(8)));
    let polls_at_exhaustion = d.get_ref().polls();
    assert_eq!(polls_at_exhaustion, 2); // the item, then the end report
    assert_eq!(d.poll_next(), Step::Done);
    assert_eq!(d.poll_next(), Step::Done);
    assert_eq!(d.get_ref().polls(), polls_at_exhaustion);

    let src = d.into_inner();
    assert_eq!(src.polls(), polls_at_exhaustion);
}

#[test]
fn at_capacity_admission_stops_before_source_error() {
    // Capacity 1: once the bound is reached the source is not consulted, so
    // an error waiting behind the admitted item surfaces only after room
    // frees up.
    let src = Src::new(vec![ok(1), SourcePoll::Failed("late")]);
    let pool = Pool::new(vec![MuxCue::Hold, MuxCue::Take(0)]);
    let mut d = TryBufferUnordered::new(src, pool, Some(1));

    assert_eq!(d.poll_next(), Step::Pending);
    assert_eq!(d.in_flight(), 1);
    assert_eq!(d.poll_next(), Step::Emitted(Ok(1)));
    assert_eq!(d.poll_next(), Step::Emitted(Err("late")));
    assert_eq!(d.poll_next(), Step::Done);
}

#[test]
fn every_admitted_item_emitted_exactly_once() {
    // No loss: each admitted item produces exactly one result, here with an
    // operation error among the successes.
    let src = Src::new(vec![ok(1), bad("two"), ok(3)]);
    let pool = Pool::new(vec![MuxCue::Take(0), MuxCue::Take(0), MuxCue::Take(0)]);
    let mut d = TryBufferUnordered::new(src, pool, None);

    let mut seen = Vec::new();
    loop {
        match d.poll_next() {
            Step::Emitted(r) => seen.push(r),
            Step::Pending => panic!("scripted run should never be pending"),
            Step::Done => break,
        }
    }
    assert_eq!(seen, vec![Ok(1), Err("two"), Ok(3)]);
}
