use vstd::prelude::*;

verus! {

/// What polling a listener for readability gave.
pub enum Readiness<E> {
    /// The listener has a connection waiting.
    Readable,
    /// Polling failed.
    Failed(E),
    /// Nothing yet; the waker has been registered.
    NotYet,
}

/// What accepting a connection gave: the stream (or the error from
/// registering it), a spurious wake-up, or another error.
pub enum Accepted<S, E> {
    Connected(Result<S, E>),
    WouldBlock,
    Failed(E),
}

/// The next thing to do while waiting for a connection.
pub enum ReadinessStep<E> {
    /// Accept the waiting connection.
    Accept,
    /// Hand out this error as the stream's next item.
    Yield(E),
    /// Report that nothing is ready yet.
    Pending,
}

/// What the stream of incoming connections answers to one poll.
pub enum IncomingPoll<S, E> {
    /// The next item: a connection or an error.
    Ready(Result<S, E>),
    /// Wake the task again at once, then report that nothing is ready.
    WakeAndPending,
    /// Nothing is ready.
    Pending,
}

/// First half of a poll of incoming connections: accept only once readable.
pub fn after_readiness<E>(readiness: Readiness<E>) -> (step: ReadinessStep<E>)
    ensures
        match readiness {
            Readiness::Readable => step is Accept,
            Readiness::Failed(e) => step == ReadinessStep::Yield(e),
            Readiness::NotYet => step is Pending,
        },
{
    match readiness {
        Readiness::Readable => ReadinessStep::Accept,
        Readiness::Failed(e) => ReadinessStep::Yield(e),
        Readiness::NotYet => ReadinessStep::Pending,
    }
}

/// Second half of a poll of incoming connections, once `accept` has run: a
/// connection or an error is the next item; a spurious wake-up polls again.
pub fn after_accept<S, E>(accepted: Accepted<S, E>) -> (poll: IncomingPoll<S, E>)
    ensures
        match accepted {
            Accepted::Connected(r) => poll == IncomingPoll::Ready(r),
            Accepted::WouldBlock => poll is WakeAndPending,
            Accepted::Failed(e) => poll == IncomingPoll::<S, E>::Ready(Err(e)),
        },
{
    match accepted {
        Accepted::Connected(r) => IncomingPoll::Ready(r),
        Accepted::WouldBlock => IncomingPoll::WakeAndPending,
        Accepted::Failed(e) => IncomingPoll::Ready(Err(e)),
    }
}

} // verus!
