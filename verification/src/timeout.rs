//! Read-timeout decisions for the serial stream.
//!
//! The protocol is strictly request/response, so the hang risk is
//! always on the response: reads are bounded by a timer, writes pass
//! through untouched.  The timer bookkeeping is the logic here: a read
//! that cannot progress arms (or keeps) the timer; the stream becoming
//! ready disarms it and hands the result through; the timer firing
//! first disarms it and turns the read into a timeout failure.  No
//! timer state outlives a completed read.  The surrounding runtime
//! owns the actual clock and polls; it reports what it saw and obeys
//! the verdict.

use vstd::prelude::*;

use crate::transfer::StreamPoll;

verus! {

/// The verdict on one read poll.
#[derive(Clone, Copy, Debug, PartialEq, Eq, Structural)]
pub enum ReadVerdict {
    /// The inner stream completed the read; hand its result through.
    Ready,
    /// The timer fired before the stream: fail the read as timed out.
    TimedOut,
    /// Neither stream nor timer is ready; stay suspended.
    Pending,
}

/// A byte stream with read timeouts.
pub struct TimeoutPort<T> {
    /// The wrapped byte stream.
    inner: T,
    /// The read timeout, in milliseconds.
    timeout_ms: u64,
    /// Whether a timer is running for a read in progress.
    timer_armed: bool,
}

impl<T> TimeoutPort<T> {
    /// The stream the port wraps.
    pub closed spec fn spec_inner(&self) -> T {
        self.inner
    }

    /// The configured read timeout, in milliseconds.
    pub closed spec fn spec_timeout_ms(&self) -> u64 {
        self.timeout_ms
    }

    /// Whether a timer is running for a read in progress.
    pub closed spec fn spec_timer_armed(&self) -> bool {
        self.timer_armed
    }

    /// Wrap a stream with a read timeout.  No read is in progress, so
    /// no timer runs.
    pub fn new(inner: T, timeout_ms: u64) -> (r: Self)
        ensures
            r.spec_inner() == inner,
            r.spec_timeout_ms() == timeout_ms,
            !r.spec_timer_armed(),
    {
        TimeoutPort { inner, timeout_ms, timer_armed: false }
    }

    /// Borrow the wrapped stream.
    pub fn inner_ref(&self) -> (r: &T)
        ensures
            *r == self.spec_inner(),
    {
        &self.inner
    }

    /// Borrow the wrapped stream mutably, so the surrounding runtime
    /// can poll it; the timer state is untouched.
    pub fn inner_mut(&mut self) -> (r: &mut T)
        ensures
            *r == old(self).spec_inner(),
            final(self).spec_inner() == *final(r),
            final(self).spec_timeout_ms() == old(self).spec_timeout_ms(),
            final(self).spec_timer_armed() == old(self).spec_timer_armed(),
    {
        &mut self.inner
    }

    /// The configured read timeout, in milliseconds.
    pub fn timeout_ms(&self) -> (r: u64)
        ensures
            r == self.spec_timeout_ms(),
    {
        self.timeout_ms
    }

    /// Judge one read poll.  `stream` is what polling the wrapped
    /// stream reported; `timer_fired` is whether the timer for this
    /// read has gone off (only read when the stream is blocked).  A
    /// completed read or a fired timer leaves the timer disarmed; only
    /// a blocked read keeps one armed, starting it fresh if the very
    /// first poll blocks.
    pub fn poll_read(&mut self, stream: StreamPoll, timer_fired: bool) -> (r: ReadVerdict)
        ensures
            final(self).spec_inner() == old(self).spec_inner(),
            final(self).spec_timeout_ms() == old(self).spec_timeout_ms(),
            stream is Complete ==> r is Ready && !final(self).spec_timer_armed(),
            stream is Blocked && timer_fired ==> r is TimedOut && !final(self).spec_timer_armed(),
            stream is Blocked && !timer_fired ==> r is Pending && final(self).spec_timer_armed(),
    {
        match stream {
            StreamPoll::Complete => {
                self.timer_armed = false;
                ReadVerdict::Ready
            }
            StreamPoll::Blocked => {
                if timer_fired {
                    self.timer_armed = false;
                    ReadVerdict::TimedOut
                } else {
                    self.timer_armed = true;
                    ReadVerdict::Pending
                }
            }
        }
    }
}

} // verus!
