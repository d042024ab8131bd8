use vstd::prelude::*;

use crate::error::{misuse, JavaError};

verus! {

/// Where a call that runs on a worker stands. `S` is what the worker starts with, `W`
/// wakes the task that waits, and `R` is what the worker delivers.
pub enum Bridge<S, W, R> {
    /// Nothing has been started.
    Unstarted(S),
    /// A worker runs; it wakes that task when it is done.
    Waiting(Option<W>),
    /// The worker is done; the outcome is there until it is taken.
    Done(Option<R>),
}

/// What a poll comes to.
pub enum Polled<S, R> {
    /// Start the worker with this, and wait.
    Start(S),
    /// Wait.
    Pending,
    /// The outcome.
    Ready(R),
    /// The outcome was taken before: such a poll is a mistake of the caller.
    Finished,
}

/// What a poll by a task that `waker` wakes comes to, and what is left. `wakes` says
/// whether the waker that is held wakes that task already.
pub open spec fn polled<S, W, R>(b: Bridge<S, W, R>, waker: W, wakes: bool) -> (
    Bridge<S, W, R>,
    Polled<S, R>,
) {
    match b {
        Bridge::Unstarted(s) => (Bridge::Waiting(Some(waker)), Polled::Start(s)),
        Bridge::Waiting(Some(w)) => if wakes {
            (b, Polled::Pending)
        } else {
            (Bridge::Waiting(Some(waker)), Polled::Pending)
        },
        Bridge::Waiting(None) => (Bridge::Waiting(Some(waker)), Polled::Pending),
        Bridge::Done(Some(r)) => (Bridge::Done(None), Polled::Ready(r)),
        Bridge::Done(None) => (b, Polled::Finished),
    }
}

impl<S, W, R> Bridge<S, W, R> {
    /// A call that starts when it is first polled.
    pub fn new(startup: S) -> (b: Self)
        ensures
            b == Bridge::<S, W, R>::Unstarted(startup),
    {
        Bridge::Unstarted(startup)
    }

    /// The waker that is held, which the caller compares its own with.
    pub fn held_waker(&self) -> (w: Option<&W>)
        ensures
            match *self {
                Bridge::Waiting(Some(held)) => w == Some(&held),
                _ => w is None,
            },
    {
        match self {
            Bridge::Waiting(Some(held)) => Some(held),
            _ => None,
        }
    }

    /// One poll. After [`Polled::Start`] the caller starts the worker, and reports a
    /// failure to do so by [`Bridge::fail`].
    pub fn poll(self, waker: W, wakes: bool) -> (r: (Self, Polled<S, R>))
        ensures
            r == polled(self, waker, wakes),
    {
        match self {
            Bridge::Unstarted(s) => (Bridge::Waiting(Some(waker)), Polled::Start(s)),
            Bridge::Waiting(Some(held)) => {
                if wakes {
                    (Bridge::Waiting(Some(held)), Polled::Pending)
                } else {
                    (Bridge::Waiting(Some(waker)), Polled::Pending)
                }
            },
            Bridge::Waiting(None) => (Bridge::Waiting(Some(waker)), Polled::Pending),
            Bridge::Done(Some(r)) => (Bridge::Done(None), Polled::Ready(r)),
            Bridge::Done(None) => (Bridge::Done(None), Polled::Finished),
        }
    }

    /// The worker could not be started: the call is done with that outcome.
    pub fn fail(self, outcome: R) -> (b: Self)
        ensures
            b == Bridge::<S, W, R>::Done(Some(outcome)),
    {
        Bridge::Done(Some(outcome))
    }

    /// The worker delivers its outcome; the waker of the waiting task comes back.
    pub fn complete(self, outcome: R) -> (r: (Self, Option<W>))
        ensures
            r.0 == Bridge::<S, W, R>::Done(Some(outcome)),
            r.1 == (match self {
                Bridge::Waiting(w) => w,
                _ => None,
            }),
    {
        match self {
            Bridge::Waiting(w) => (Bridge::Done(Some(outcome)), w),
            _ => (Bridge::Done(Some(outcome)), None),
        }
    }
}

/// What a bridge waits for.
#[derive(Clone, Copy, PartialEq, Eq, Structural, Debug)]
pub enum BridgeKind {
    /// A call that runs on a worker.
    Call,
    /// A Java future.
    Future,
}

/// The outcome of a bridge whose worker could not be started.
pub fn spawn_failure(kind: BridgeKind) -> (e: JavaError)
    ensures
        e@ == misuse(
            match kind {
                BridgeKind::Call => "failed to spawn the async-call bridge thread"@,
                BridgeKind::Future => "failed to spawn the CompletableFuture bridge thread"@,
            },
        ),
{
    match kind {
        BridgeKind::Call => JavaError::InvalidArgument(
            "failed to spawn the async-call bridge thread",
        ),
        BridgeKind::Future => JavaError::InvalidArgument(
            "failed to spawn the CompletableFuture bridge thread",
        ),
    }
}

/// The worker is started by the first poll, and by no other.
pub proof fn worker_starts_once<S, W, R>(b: Bridge<S, W, R>, waker: W, wakes: bool)
    ensures
        polled(b, waker, wakes).1 is Start <==> b is Unstarted,
        !(polled(b, waker, wakes).0 is Unstarted),
{
}

/// An outcome is handed out once: the poll that gives it leaves nothing to take.
pub proof fn outcome_is_taken_once<S, W, R>(b: Bridge<S, W, R>, waker: W, wakes: bool)
    requires
        polled(b, waker, wakes).1 is Ready,
    ensures
        polled(polled(b, waker, wakes).0, waker, wakes).1 is Finished,
{
}

/// A task that polled a running call is the one that is woken when it completes.
pub proof fn last_poller_is_woken<S, W, R>(b: Bridge<S, W, R>, waker: W, wakes: bool)
    requires
        !(b is Done),
        wakes ==> b == Bridge::<S, W, R>::Waiting(Some(waker)),
    ensures
        polled(b, waker, wakes).0 == Bridge::<S, W, R>::Waiting(Some(waker)),
{
}

/// The worker starts with what the call was made with, and the task that polls is given
/// exactly what the worker delivered; until then it waits.
pub proof fn outcomes_reach_the_poller<S, W, R>(s: S, waker: W, wakes: bool, held: Option<W>, r: R)
    ensures
        polled(Bridge::<S, W, R>::Unstarted(s), waker, wakes) == (
            Bridge::<S, W, R>::Waiting(Some(waker)),
            Polled::<S, R>::Start(s),
        ),
        polled(Bridge::<S, W, R>::Waiting(held), waker, wakes).1 == Polled::<S, R>::Pending,
        polled(Bridge::<S, W, R>::Waiting(held), waker, wakes).0 is Waiting,
        polled(Bridge::<S, W, R>::Done(Some(r)), waker, wakes) == (
            Bridge::<S, W, R>::Done(None),
            Polled::<S, R>::Ready(r),
        ),
        polled(Bridge::<S, W, R>::Done(None), waker, wakes).1 == Polled::<S, R>::Finished,
{
}

}
