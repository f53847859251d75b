//! Revocable ownership of the serial byte stream.
//!
//! The physical port handle cannot be reliably closed and reopened
//! after a stuck exchange, so recovery reuses the same open stream
//! while forcibly invalidating whatever half-finished operation was
//! stuck on it.  [`TransferPort`] owns the stream together with an
//! owner-generation counter and one pending-task slot per direction;
//! [`TransferPortHandle`] is a capability stamped with the generation
//! it was issued for.  `take` advances the generation, which makes
//! every older handle permanently stale, and reports which parked
//! tasks must be woken so their operations fail immediately instead of
//! hanging.
//!
//! The asynchronous plumbing around this state machine (mutexes,
//! wakers, the actual stream polls) lives outside the library; it
//! identifies parked tasks by plain tokens and consults these
//! functions for every decision.

use vstd::prelude::*;

verus! {

/// Error for an operation attempted through a stale handle.
#[derive(Clone, Copy, Debug, PartialEq, Eq, Structural)]
pub enum TransferError {
    /// The handle's generation no longer matches the port's owner
    /// generation: a later `take` revoked it.
    BrokenPipe,
}

/// What the wrapped stream reported when it was polled.
#[derive(Clone, Copy, Debug, PartialEq, Eq, Structural)]
pub enum StreamPoll {
    /// The operation completed (successfully or with a stream error).
    Complete,
    /// The stream could not make progress; the polling task parks.
    Blocked,
}

/// The stream together with the owner generation and the parked-task
/// slot for each direction.
pub struct TransferPort<T> {
    /// The wrapped byte stream.
    inner: T,
    /// Current owner generation; only the handle stamped with this
    /// value may act on the stream.
    owner: u64,
    /// Token of the task parked on a read, if any.
    rx_task: Option<u64>,
    /// Token of the task parked on a write, flush or shutdown, if any.
    tx_task: Option<u64>,
}

/// A capability granting revocable access to the wrapped stream.
#[derive(Clone, Copy, Debug, PartialEq, Eq, Structural)]
pub struct TransferPortHandle {
    /// The owner generation this handle was issued for.
    id: u64,
}

/// Everything `take` hands back: the fresh handle and the parked tasks
/// that must be woken now that their operations can only fail.
pub struct TakeOutcome {
    /// Handle stamped with the new owner generation.
    pub handle: TransferPortHandle,
    /// Task that was parked on a read, to be woken.
    pub wake_rx: Option<u64>,
    /// Task that was parked on a write, to be woken.
    pub wake_tx: Option<u64>,
}

impl<T> TransferPort<T> {
    /// The stream the port wraps.
    pub closed spec fn spec_inner(&self) -> T {
        self.inner
    }

    /// The current owner generation.
    pub closed spec fn spec_owner(&self) -> u64 {
        self.owner
    }

    /// The parked read task, if any.
    pub closed spec fn spec_rx_task(&self) -> Option<u64> {
        self.rx_task
    }

    /// The parked write task, if any.
    pub closed spec fn spec_tx_task(&self) -> Option<u64> {
        self.tx_task
    }

    /// Wrap a stream.  No handle exists yet (generation 0 is never
    /// issued), and no task is parked.
    pub fn new(inner: T) -> (r: Self)
        ensures
            r.spec_inner() == inner,
            r.spec_owner() == 0,
            r.spec_rx_task() is None,
            r.spec_tx_task() is None,
    {
        TransferPort { inner, owner: 0, rx_task: None, tx_task: None }
    }

    /// Revoke the current handle and issue a fresh one.
    ///
    /// The owner generation advances, so every handle issued earlier
    /// fails all further operations; both parked-task slots are
    /// cleared and returned so the caller can wake those tasks.
    pub fn take(&mut self) -> (r: TakeOutcome)
        requires
            old(self).spec_owner() < u64::MAX,
        ensures
            take_transition(*old(self), *final(self), r.handle),
            r.wake_rx == old(self).spec_rx_task(),
            r.wake_tx == old(self).spec_tx_task(),
    {
        self.owner = self.owner + 1;
        let wake_rx = self.rx_task.take();
        let wake_tx = self.tx_task.take();
        TakeOutcome { handle: TransferPortHandle { id: self.owner }, wake_rx, wake_tx }
    }

    /// Borrow the wrapped stream.
    pub fn inner_ref(&self) -> (r: &T)
        ensures
            *r == self.spec_inner(),
    {
        &self.inner
    }

    /// Borrow the wrapped stream mutably, so the surrounding runtime
    /// can poll it; the port's own state is untouched.
    pub fn inner_mut(&mut self) -> (r: &mut T)
        ensures
            *r == old(self).spec_inner(),
            final(self).spec_inner() == *final(r),
            final(self).spec_owner() == old(self).spec_owner(),
            final(self).spec_rx_task() == old(self).spec_rx_task(),
            final(self).spec_tx_task() == old(self).spec_tx_task(),
    {
        &mut self.inner
    }

    /// The current owner generation, so a caller can rule out counter
    /// exhaustion before asking for a fresh handle.
    pub fn owner(&self) -> (r: u64)
        ensures
            r == self.spec_owner(),
    {
        self.owner
    }

    /// Record the outcome of polling the stream for a read through a
    /// live handle: a completed operation clears the read slot, a
    /// blocked one parks the polling task there (overwriting any
    /// earlier registration, so only the most recent waiter is
    /// guaranteed a wake).
    pub fn note_read(&mut self, handle: &TransferPortHandle, poll: StreamPoll, task: u64)
        requires
            handle_live(*handle, *old(self)),
        ensures
            final(self).spec_rx_task() == (if poll is Blocked {
                Some(task)
            } else {
                Option::<u64>::None
            }),
            final(self).spec_tx_task() == old(self).spec_tx_task(),
            final(self).spec_owner() == old(self).spec_owner(),
            final(self).spec_inner() == old(self).spec_inner(),
    {
        match poll {
            StreamPoll::Complete => {
                self.rx_task = None;
            }
            StreamPoll::Blocked => {
                self.rx_task = Some(task);
            }
        }
    }

    /// Record the outcome of polling the stream for a write, flush or
    /// shutdown through a live handle; the counterpart of `note_read`
    /// for the write direction.
    pub fn note_write(&mut self, handle: &TransferPortHandle, poll: StreamPoll, task: u64)
        requires
            handle_live(*handle, *old(self)),
        ensures
            final(self).spec_tx_task() == (if poll is Blocked {
                Some(task)
            } else {
                Option::<u64>::None
            }),
            final(self).spec_rx_task() == old(self).spec_rx_task(),
            final(self).spec_owner() == old(self).spec_owner(),
            final(self).spec_inner() == old(self).spec_inner(),
    {
        match poll {
            StreamPoll::Complete => {
                self.tx_task = None;
            }
            StreamPoll::Blocked => {
                self.tx_task = Some(task);
            }
        }
    }
}

impl TransferPortHandle {
    /// The owner generation this handle was issued for.
    pub closed spec fn spec_id(&self) -> u64 {
        self.id
    }

    /// Guard that every operation runs first: succeeds exactly when
    /// this handle still matches the port's owner generation, and
    /// fails with `BrokenPipe` once a later `take` has revoked it.
    /// The stream is never touched on failure.
    pub fn get_state<T>(&self, port: &TransferPort<T>) -> (r: Result<(), TransferError>)
        ensures
            r is Ok <==> handle_live(*self, *port),
            r is Err ==> r->Err_0 == TransferError::BrokenPipe,
    {
        if port.owner == self.id {
            Ok(())
        } else {
            Err(TransferError::BrokenPipe)
        }
    }
}

/// A handle is live exactly when its stamped generation is the port's
/// current owner generation; at most one handle is live at any instant.
pub open spec fn handle_live<T>(handle: TransferPortHandle, port: TransferPort<T>) -> bool {
    handle.spec_id() == port.spec_owner()
}

/// How `take` changes the port: the generation advances by one, the
/// fresh handle carries the new generation, both parked-task slots are
/// cleared, and the stream itself is untouched.
pub open spec fn take_transition<T>(
    pre: TransferPort<T>,
    post: TransferPort<T>,
    handle: TransferPortHandle,
) -> bool {
    &&& post.spec_owner() == pre.spec_owner() + 1
    &&& handle.spec_id() == post.spec_owner()
    &&& post.spec_rx_task() is None
    &&& post.spec_tx_task() is None
    &&& post.spec_inner() == pre.spec_inner()
}

/// Revocation law: whatever handle was live before a `take` is stale
/// afterwards — every later operation through it fails the
/// `get_state` guard — while the freshly issued handle is live.
pub proof fn lemma_take_invalidates<T>(
    pre: TransferPort<T>,
    post: TransferPort<T>,
    h1: TransferPortHandle,
    h2: TransferPortHandle,
)
    requires
        handle_live(h1, pre),
        take_transition(pre, post, h2),
    ensures
        !handle_live(h1, post),
        handle_live(h2, post),
        h1.spec_id() != h2.spec_id(),
{
}

} // verus!
