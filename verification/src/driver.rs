use crate::mux::Mux;
use crate::poll::{MuxPoll, SourcePoll, Step};
use crate::source::{until_end, Fuse, Upstream};
use vstd::prelude::*;

verus! {

/// Why an admission phase stopped admitting.
pub enum Stop<E> {
    /// The pool's occupancy reached the capacity bound.
    AtCapacity,
    /// The source has no item available right now, but is not exhausted.
    NotReady,
    /// The source is exhausted.
    Ended,
    /// The source itself failed, with this error.
    Failed(E),
}

/// Whether the admission phase keeps admitting at this occupancy: always,
/// when no capacity bound is set, and strictly below the bound otherwise.
pub open spec fn wants_refill(max: Option<usize>, len: nat) -> bool {
    match max {
        Option::Some(m) => len < m,
        Option::None => true,
    }
}

/// What one admission phase does, given the replies the guarded source has
/// yet to deliver, the capacity bound, and the pool's occupancy: the
/// operations admitted in order, the replies left over, and why it stopped.
pub open spec fn refill_spec<F, E>(
    rs: Seq<SourcePoll<F, E>>,
    max: Option<usize>,
    len: nat,
) -> (Seq<F>, Seq<SourcePoll<F, E>>, Stop<E>)
    decreases rs.len(),
{
    if !wants_refill(max, len) {
        (Seq::empty(), rs, Stop::AtCapacity)
    } else if rs.len() == 0 {
        (Seq::empty(), rs, Stop::Ended)
    } else {
        match rs[0] {
            SourcePoll::Op(f) => {
                let t = refill_spec(rs.drop_first(), max, len + 1);
                (seq![f] + t.0, t.1, t.2)
            },
            SourcePoll::Failed(e) => (Seq::empty(), rs.drop_first(), Stop::Failed(e)),
            SourcePoll::Pending => (Seq::empty(), rs.drop_first(), Stop::NotReady),
            SourcePoll::End => (Seq::empty(), rs.drop_first(), Stop::Ended),
        }
    }
}

/// The items available at the head of a reply sequence: the operations the
/// source will hand over before it first reports anything but an item.
pub open spec fn leading_ops<F, E>(rs: Seq<SourcePoll<F, E>>) -> Seq<F>
    decreases rs.len(),
{
    if rs.len() == 0 {
        Seq::empty()
    } else {
        match rs[0] {
            SourcePoll::Op(f) => seq![f] + leading_ops(rs.drop_first()),
            _ => Seq::empty(),
        }
    }
}

/// Law of unbounded mode: with no capacity bound, the admission phase admits
/// every currently available item, bounded only by what the source supplies.
pub proof fn lemma_unbounded_admits_all<F, E>(rs: Seq<SourcePoll<F, E>>, len: nat)
    ensures
        refill_spec::<F, E>(rs, Option::None, len).0 == leading_ops(rs),
    decreases rs.len(),
{
    if rs.len() == 0 {
    } else {
        match rs[0] {
            SourcePoll::Op(_) => {
                lemma_unbounded_admits_all::<F, E>(rs.drop_first(), (len + 1) as nat);
            },
            _ => {},
        }
    }
}

/// Law of bounded mode: with a capacity bound, the admission phase admits at
/// most the room left under the bound.
pub proof fn lemma_bounded_admits_within<F, E>(rs: Seq<SourcePoll<F, E>>, m: usize, len: nat)
    requires
        len <= m,
    ensures
        len + refill_spec::<F, E>(rs, Option::Some(m), len).0.len() <= m,
    decreases rs.len(),
{
    if len < m && rs.len() > 0 {
        match rs[0] {
            SourcePoll::Op(_) => {
                lemma_bounded_admits_within::<F, E>(rs.drop_first(), m, (len + 1) as nat);
            },
            _ => {},
        }
    }
}

/// The capacity as stored: a bound of zero means no bound at all.
pub open spec fn normalize_capacity(n: Option<usize>) -> Option<usize> {
    match n {
        Option::Some(m) => if m == 0 {
            Option::None
        } else {
            Option::Some(m)
        },
        Option::None => Option::None,
    }
}

/// The driver: owns a guarded source and a multiplexer, admits operations
/// from the source up to the capacity bound, and reports completed results
/// as the multiplexer delivers them.
pub struct TryBufferUnordered<S, M> {
    stream: Fuse<S>,
    queue: M,
    max: Option<usize>,
}

impl<S, M> TryBufferUnordered<S, M> {
    /// The capacity bound on in-flight operations, if any.
    pub closed spec fn capacity(&self) -> Option<usize> {
        self.max
    }

    /// Whether the guarded source has reported exhaustion.
    pub closed spec fn src_done(&self) -> bool {
        self.stream.done()
    }

    /// The replies the guarded source has yet to deliver.
    pub closed spec fn src<F, E>(&self) -> Seq<SourcePoll<F, E>>
        where S: Upstream<F, E>,
    {
        self.stream.pending::<F, E>()
    }

    /// The operations currently in flight, in admission order.
    pub closed spec fn queued<F, T, E>(&self) -> Seq<F>
        where M: Mux<F, T, E>,
    {
        self.queue.ops()
    }

    /// The stored capacity bound, if present, is positive and the pool's
    /// occupancy respects it.
    pub open spec fn wf<F, T, E>(&self) -> bool
        where M: Mux<F, T, E>,
    {
        match self.capacity() {
            Option::Some(m) => m > 0 && self.queued::<F, T, E>().len() <= m,
            Option::None => true,
        }
    }

    /// The terminal state: the source is exhausted and nothing is in flight.
    pub open spec fn terminated<F, T, E>(&self) -> bool
        where M: Mux<F, T, E>,
    {
        self.src_done() && self.queued::<F, T, E>().len() == 0
    }

    /// Build a driver from a source, an empty multiplexer, and an optional
    /// capacity bound; a bound of zero is taken as "unbounded".
    pub fn new<F, T, E>(stream: S, queue: M, n: Option<usize>) -> (r: Self)
        where S: Upstream<F, E>, M: Mux<F, T, E>,
        requires
            queue.ops().len() == 0,
        ensures
            r.capacity() == normalize_capacity(n),
            !r.src_done(),
            r.src::<F, E>() == until_end(stream.replies()),
            r.queued::<F, T, E>().len() == 0,
            r.wf::<F, T, E>(),
    {
        let max = match n {
            Option::Some(m) => if m == 0 {
                Option::None
            } else {
                Option::Some(m)
            },
            Option::None => Option::None,
        };
        TryBufferUnordered { stream: Fuse::new(stream), queue, max }
    }

    /// The number of operations currently in flight.
    pub fn in_flight<F, T, E>(&self) -> (n: usize)
        where M: Mux<F, T, E>,
        ensures
            n == self.queued::<F, T, E>().len(),
    {
        self.queue.len()
    }

    /// The wrapped source, as the driver holds it.
    pub closed spec fn source_inner(&self) -> S {
        self.stream.inner()
    }

    /// A reference to the wrapped source.
    pub fn get_ref(&self) -> (r: &S)
        ensures
            *r == self.source_inner(),
    {
        self.stream.get_ref()
    }

    /// Consume the driver and hand the wrapped source back, dropping any
    /// operations still in flight.
    pub fn into_inner(self) -> (r: S)
        ensures
            r == self.source_inner(),
    {
        self.stream.into_inner()
    }

    /// The admission phase: query the guarded source and admit operations
    /// into the multiplexer while the capacity bound allows, stopping on the
    /// first reply that is not an item. A source failure is handed back at
    /// once, before the multiplexer is consulted.
    fn refill<F, T, E>(&mut self) -> (err: Option<E>)
        where S: Upstream<F, E>, M: Mux<F, T, E>,
        requires
            old(self).wf::<F, T, E>(),
        ensures
            final(self).wf::<F, T, E>(),
            final(self).capacity() == old(self).capacity(),
            ({
                let t = refill_spec(
                    old(self).src::<F, E>(),
                    old(self).capacity(),
                    old(self).queued::<F, T, E>().len(),
                );
                &&& final(self).queued::<F, T, E>() == old(self).queued::<F, T, E>() + t.0
                &&& final(self).src::<F, E>() == t.1
                &&& match t.2 {
                    Stop::Failed(e) => err == Option::Some(e) && !final(self).src_done(),
                    Stop::Ended => err is None && final(self).src_done(),
                    Stop::NotReady => err is None && !final(self).src_done(),
                    Stop::AtCapacity => err is None
                        && final(self).src_done() == old(self).src_done(),
                }
            }),
    {
        let ghost rs0 = self.src::<F, E>();
        let ghost q0 = self.queued::<F, T, E>();
        let ghost mut adm: Seq<F> = Seq::empty();
        loop
            invariant
                self.max == old(self).max,
                self.wf::<F, T, E>(),
                self.src_done() == old(self).src_done(),
                rs0 == old(self).src::<F, E>(),
                q0 == old(self).queued::<F, T, E>(),
                self.queued::<F, T, E>() == q0 + adm,
                ({
                    let t = refill_spec(
                        self.src::<F, E>(),
                        old(self).capacity(),
                        self.queued::<F, T, E>().len(),
                    );
                    refill_spec(rs0, old(self).capacity(), q0.len())
                        == (adm + t.0, t.1, t.2)
                }),
            decreases self.src::<F, E>().len(),
        {
            let under = match self.max {
                Option::Some(m) => self.queue.len() < m,
                Option::None => true,
            };
            if !under {
                proof {
                    assert(adm + Seq::<F>::empty() =~= adm);
                }
                return Option::None;
            }
            let ghost rs_cur = self.src::<F, E>();
            match self.stream.next() {
                SourcePoll::Op(f) => {
                    self.queue.push(f);
                    proof {
                        let t2 = refill_spec(
                            rs_cur.drop_first(),
                            old(self).capacity(),
                            (q0 + adm).len() + 1,
                        );
                        assert(refill_spec(rs_cur, old(self).capacity(), (q0 + adm).len())
                            == (seq![f] + t2.0, t2.1, t2.2));
                        assert((q0 + adm).push(f) =~= q0 + (adm + seq![f]));
                        assert(adm + (seq![f] + t2.0) =~= (adm + seq![f]) + t2.0);
                        adm = adm + seq![f];
                    }
                },
                SourcePoll::Failed(e) => {
                    proof {
                        assert(adm + Seq::<F>::empty() =~= adm);
                    }
                    return Option::Some(e);
                },
                SourcePoll::Pending => {
                    proof {
                        assert(adm + Seq::<F>::empty() =~= adm);
                    }
                    return Option::None;
                },
                SourcePoll::End => {
                    proof {
                        assert(rs_cur.len() == 0);
                        assert(adm + Seq::<F>::empty() =~= adm);
                        assert(self.src::<F, E>() =~= rs_cur);
                    }
                    return Option::None;
                },
            }
        }
    }

    /// Advance the pipeline by one step: refill the multiplexer from the
    /// guarded source up to the capacity bound, then ask the multiplexer for
    /// a completed result; report an emitted result, transient
    /// unavailability, or permanent completion.
    ///
    /// The contract carries the driver's laws. The capacity bound is never
    /// exceeded. Permanent completion is reported exactly in the terminal
    /// state, which is preserved, so every call after the first `Done` again
    /// reports `Done`. A source failure is emitted at once, with the
    /// multiplexer's contents only extended — a completed result already
    /// pending in the pool is neither consumed nor lost. In every other case
    /// the in-flight operations are conserved: exactly the admitted ones
    /// join, and exactly one leaves per emitted result.
    pub fn poll_next<F, T, E>(&mut self) -> (r: Step<T, E>)
        where S: Upstream<F, E>, M: Mux<F, T, E>,
        requires
            old(self).wf::<F, T, E>(),
        ensures
            final(self).wf::<F, T, E>(),
            final(self).capacity() == old(self).capacity(),
            match final(self).capacity() {
                Option::Some(m) => final(self).queued::<F, T, E>().len() <= m,
                Option::None => true,
            },
            old(self).terminated::<F, T, E>() ==> r is Done && final(self).terminated::<F, T, E>(),
            r is Done ==> final(self).terminated::<F, T, E>(),
            r is Pending ==> !final(self).terminated::<F, T, E>(),
            old(self).capacity() is None ==> refill_spec(
                old(self).src::<F, E>(),
                old(self).capacity(),
                old(self).queued::<F, T, E>().len(),
            ).0 == leading_ops(old(self).src::<F, E>()),
            ({
                let t = refill_spec(
                    old(self).src::<F, E>(),
                    old(self).capacity(),
                    old(self).queued::<F, T, E>().len(),
                );
                match t.2 {
                    Stop::Failed(e) => {
                        &&& r == Step::<T, E>::Emitted(Result::Err(e))
                        &&& final(self).queued::<F, T, E>()
                            == old(self).queued::<F, T, E>() + t.0
                        &&& final(self).src::<F, E>() == t.1
                        &&& !final(self).src_done()
                    },
                    _ => {
                        &&& final(self).src::<F, E>() == t.1
                        &&& (t.2 is Ended ==> final(self).src_done())
                        &&& (t.2 is NotReady ==> !final(self).src_done())
                        &&& (t.2 is AtCapacity ==> final(self).src_done() == old(self).src_done())
                        &&& ((t.2 is Ended && old(self).queued::<F, T, E>().len() + t.0.len() == 0)
                            ==> r is Done)
                        &&& match r {
                            Step::Emitted(_) => {
                                let q1 = old(self).queued::<F, T, E>() + t.0;
                                q1.len() > 0 && (exists|i: int|
                                    0 <= i < q1.len()
                                        && final(self).queued::<F, T, E>() == q1.remove(i))
                            },
                            Step::Pending => final(self).queued::<F, T, E>()
                                == old(self).queued::<F, T, E>() + t.0,
                            Step::Done => old(self).queued::<F, T, E>().len() == 0
                                && t.0.len() == 0,
                        }
                    },
                }
            }),
    {
        proof {
            if old(self).src_done() {
                old(self).stream.lemma_done_no_pending::<F, E>();
            }
            if self.max is None {
                lemma_unbounded_admits_all::<F, E>(
                    old(self).src::<F, E>(),
                    old(self).queued::<F, T, E>().len(),
                );
            }
        }
        let err = self.refill();
        match err {
            Option::Some(e) => {
                return Step::Emitted(Result::Err(e));
            },
            Option::None => {},
        }
        match self.queue.poll_ready() {
            MuxPoll::Finished(res) => Step::Emitted(res),
            MuxPoll::Pending => Step::Pending,
            MuxPoll::Idle => {
                if self.stream.is_exhausted() {
                    Step::Done
                } else {
                    Step::Pending
                }
            },
        }
    }
}

} // verus!
