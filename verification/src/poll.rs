use vstd::prelude::*;

verus! {

/// One reply from the upstream source: either an operation to run, an
/// upstream failure, a transient "nothing available right now", or the
/// permanent end of the sequence.
#[derive(Debug, PartialEq, Eq)]
pub enum SourcePoll<F, E> {
    /// The source yields the next operation to run.
    Op(F),
    /// The source itself failed to produce its next item.
    Failed(E),
    /// No item is available right now; more may come later.
    Pending,
    /// No more items will ever come.
    End,
}

/// One reply from the multiplexer holding the in-flight operations.
#[derive(Debug, PartialEq, Eq)]
pub enum MuxPoll<T, E> {
    /// One in-flight operation completed, with this result.
    Finished(Result<T, E>),
    /// There are in-flight operations, but none has completed yet.
    Pending,
    /// No operations are in flight at all.
    Idle,
}

/// What one invocation of the driver reports to its consumer.
#[derive(Debug, PartialEq, Eq)]
pub enum Step<T, E> {
    /// One result is ready: the success value or error of a completed
    /// operation, or an upstream failure.
    Emitted(Result<T, E>),
    /// Nothing to report this call; try again when woken.
    Pending,
    /// Permanent completion: no more results will ever be emitted.
    Done,
}

} // verus!
