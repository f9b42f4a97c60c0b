use crate::poll::MuxPoll;
use vstd::prelude::*;

verus! {

/// The multiplexer: an unordered pool of in-flight operations. It is modeled
/// by the operations it currently holds, listed in admission order; which of
/// them completes first is the pool's own choice, so polling may remove any
/// one of them.
pub trait Mux<F, T, E> {
    /// The operations currently in flight, in admission order. An
    /// implementation meant for verified callers overrides this; an
    /// unverified one may leave the default.
    open spec fn ops(&self) -> Seq<F> {
        Seq::empty()
    }

    /// Admit one more operation into the pool.
    fn push(&mut self, op: F)
        ensures
            final(self).ops() == old(self).ops().push(op),
    ;

    /// The current occupancy of the pool.
    fn len(&self) -> (n: usize)
        ensures
            n == self.ops().len(),
    ;

    /// Ask for a completed operation: either one operation leaves the pool
    /// and its result is reported, or the pool is unchanged and reports
    /// whether it is merely not ready or empty altogether.
    fn poll_ready(&mut self) -> (r: MuxPoll<T, E>)
        ensures
            r is Finished ==> old(self).ops().len() > 0
                && (exists|i: int|
                    0 <= i < old(self).ops().len()
                        && final(self).ops() == old(self).ops().remove(i)),
            r is Pending ==> final(self).ops() == old(self).ops() && final(self).ops().len() > 0,
            r is Idle ==> final(self).ops() == old(self).ops() && final(self).ops().len() == 0,
    ;
}

/// An operation for scripted runs: driving it to completion yields the
/// outcome it was built with.
#[derive(Debug, PartialEq, Eq)]
pub struct ModelOp<T, E> {
    pub outcome: Result<T, E>,
}

/// One entry of a scripted multiplexer's script: what its next poll does.
#[derive(Clone, Copy, Debug, PartialEq, Eq)]
pub enum MuxCue {
    /// Complete the in-flight operation at this position (in admission
    /// order), if there is one; otherwise report by occupancy.
    Take(usize),
    /// Complete nothing this poll; report by occupancy.
    Hold,
}

/// A multiplexer for scripted runs: a cue list fixed at construction decides
/// which in-flight operation completes at each poll.
pub struct ScriptedMux<T, E> {
    inflight: Vec<ModelOp<T, E>>,
    cues: Vec<MuxCue>,
    at: usize,
}

impl<T, E> ScriptedMux<T, E> {
    pub fn new(cues: Vec<MuxCue>) -> (r: Self)
        ensures
            r.ops().len() == 0,
    {
        ScriptedMux { inflight: Vec::new(), cues, at: 0 }
    }
}

impl<T, E> Mux<ModelOp<T, E>, T, E> for ScriptedMux<T, E> {
    closed spec fn ops(&self) -> Seq<ModelOp<T, E>> {
        self.inflight@
    }

    fn push(&mut self, op: ModelOp<T, E>) {
        self.inflight.push(op);
    }

    fn len(&self) -> (n: usize) {
        self.inflight.len()
    }

    fn poll_ready(&mut self) -> (r: MuxPoll<T, E>) {
        let mut cue = MuxCue::Hold;
        if self.at < self.cues.len() {
            cue = self.cues[self.at];
            self.at = self.at + 1;
        }
        match cue {
            MuxCue::Take(i) => {
                if i < self.inflight.len() {
                    let op = self.inflight.remove(i);
                    MuxPoll::Finished(op.outcome)
                } else if self.inflight.len() == 0 {
                    MuxPoll::Idle
                } else {
                    MuxPoll::Pending
                }
            }
            MuxCue::Hold => {
                if self.inflight.len() == 0 {
                    MuxPoll::Idle
                } else {
                    MuxPoll::Pending
                }
            }
        }
    }
}

} // verus!
