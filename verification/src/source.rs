use crate::poll::SourcePoll;
use vstd::prelude::*;

verus! {

/// The upstream producer of items. Each of its implementations is modeled by
/// the sequence of replies it delivers, one per poll, in a given run: the
/// driver is verified for every such sequence, so every actual run of a
/// source is covered.
pub trait Upstream<F, E> {
    /// The replies this source has yet to deliver, in the order it will
    /// deliver them. An implementation meant for verified callers overrides
    /// this; an unverified one may leave the default, and then nothing is
    /// known of what it delivers.
    open spec fn replies(&self) -> Seq<SourcePoll<F, E>> {
        Seq::empty()
    }

    /// Deliver the next reply. Once the reply sequence runs out, the source
    /// reports the end of the sequence.
    fn poll_item(&mut self) -> (r: SourcePoll<F, E>)
        ensures
            old(self).replies().len() == 0 ==> r is End && final(self).replies().len() == 0,
            old(self).replies().len() > 0 ==> r == old(self).replies()[0]
                && final(self).replies() == old(self).replies().drop_first(),
    ;
}

/// The replies of a source up to, and not including, its first report that
/// the sequence has ended: the only part a fused wrapper ever lets through.
pub open spec fn until_end<F, E>(rs: Seq<SourcePoll<F, E>>) -> Seq<SourcePoll<F, E>>
    decreases rs.len(),
{
    if rs.len() == 0 {
        Seq::empty()
    } else if rs[0] is End {
        Seq::empty()
    } else {
        seq![rs[0]] + until_end(rs.drop_first())
    }
}

/// A guarded source: once the wrapped source has reported the end of the
/// sequence, every later poll reports the end again without touching the
/// wrapped source.
pub struct Fuse<S> {
    raw: S,
    exhausted: bool,
}

impl<S> Fuse<S> {
    /// The wrapped source.
    pub closed spec fn inner(&self) -> S {
        self.raw
    }

    /// Whether the wrapped source has reported the end of the sequence.
    pub closed spec fn done(&self) -> bool {
        self.exhausted
    }

    /// The replies this guarded source has yet to let through: none once the
    /// end has been seen, and never the end-of-sequence report itself.
    pub closed spec fn pending<F, E>(&self) -> Seq<SourcePoll<F, E>>
        where S: Upstream<F, E>,
    {
        if self.exhausted {
            Seq::empty()
        } else {
            until_end(self.raw.replies())
        }
    }

    pub fn new<F, E>(raw: S) -> (r: Self)
        where S: Upstream<F, E>,
        ensures
            !r.done(),
            r.inner() == raw,
            r.pending::<F, E>() == until_end(raw.replies()),
    {
        Fuse { raw, exhausted: false }
    }

    /// Queried by the driver in its termination check.
    pub fn is_exhausted(&self) -> (b: bool)
        ensures
            b == self.done(),
    {
        self.exhausted
    }

    pub fn get_ref(&self) -> (r: &S)
        ensures
            *r == self.inner(),
    {
        &self.raw
    }

    pub fn into_inner(self) -> (r: S)
        ensures
            r == self.inner(),
    {
        self.raw
    }

    /// Once the end of the sequence has been seen, no replies are pending.
    pub proof fn lemma_done_no_pending<F, E>(&self)
        where S: Upstream<F, E>,
        requires
            self.done(),
        ensures
            self.pending::<F, E>().len() == 0,
    {
    }

    /// Deliver the next reply, querying the wrapped source only while the end
    /// of the sequence has not been seen.
    pub fn next<F, E>(&mut self) -> (r: SourcePoll<F, E>)
        where S: Upstream<F, E>,
        ensures
            old(self).done() ==> r is End && *final(self) == *old(self),
            final(self).done() == (r is End),
            (r is End) == (old(self).pending::<F, E>().len() == 0),
            r is End ==> final(self).pending::<F, E>().len() == 0,
            old(self).pending::<F, E>().len() > 0 ==> r == old(self).pending::<F, E>()[0]
                && final(self).pending::<F, E>() == old(self).pending::<F, E>().drop_first(),
    {
        if self.exhausted {
            return SourcePoll::End;
        }
        let ghost rs0 = self.raw.replies();
        let r = self.raw.poll_item();
        match r {
            SourcePoll::Op(f) => {
                proof {
                    assert(old(self).pending::<F, E>() == seq![rs0[0]] + until_end(rs0.drop_first()));
                    assert((seq![rs0[0]] + until_end(rs0.drop_first())).drop_first()
                        =~= until_end(rs0.drop_first()));
                }
                SourcePoll::Op(f)
            }
            SourcePoll::Failed(e) => {
                proof {
                    assert(old(self).pending::<F, E>() == seq![rs0[0]] + until_end(rs0.drop_first()));
                    assert((seq![rs0[0]] + until_end(rs0.drop_first())).drop_first()
                        =~= until_end(rs0.drop_first()));
                }
                SourcePoll::Failed(e)
            }
            SourcePoll::Pending => {
                proof {
                    assert(old(self).pending::<F, E>() == seq![rs0[0]] + until_end(rs0.drop_first()));
                    assert((seq![rs0[0]] + until_end(rs0.drop_first())).drop_first()
                        =~= until_end(rs0.drop_first()));
                }
                SourcePoll::Pending
            }
            SourcePoll::End => {
                self.exhausted = true;
                proof {
                    assert(old(self).pending::<F, E>().len() == 0);
                }
                SourcePoll::End
            }
        }
    }
}

/// A source that delivers a fixed script of replies, then reports the end of
/// the sequence. It counts how often it is polled, so an embedding test can
/// observe that a guarded source is never queried past exhaustion.
pub struct ScriptedSource<F, E> {
    script: Vec<SourcePoll<F, E>>,
    polled: usize,
}

impl<F, E> ScriptedSource<F, E> {
    /// How often this source has been polled (saturating).
    pub closed spec fn polls_made(&self) -> nat {
        self.polled as nat
    }

    pub fn new(script: Vec<SourcePoll<F, E>>) -> (r: Self)
        ensures
            r.replies() == script@,
            r.polls_made() == 0,
    {
        ScriptedSource { script, polled: 0 }
    }

    pub fn polls(&self) -> (n: usize)
        ensures
            n == self.polls_made(),
    {
        self.polled
    }
}

impl<F, E> Upstream<F, E> for ScriptedSource<F, E> {
    closed spec fn replies(&self) -> Seq<SourcePoll<F, E>> {
        self.script@
    }

    fn poll_item(&mut self) -> (r: SourcePoll<F, E>) {
        if self.polled < usize::MAX {
            self.polled = self.polled + 1;
        }
        if self.script.len() > 0 {
            let r = self.script.remove(0);
            proof {
                assert(self.script@ =~= old(self).script@.drop_first());
            }
            r
        } else {
            SourcePoll::End
        }
    }
}

} // verus!
