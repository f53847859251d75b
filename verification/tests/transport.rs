//! Tests of the revocable transport and the read-timeout decisions.

use laing_controller::timeout::{ReadVerdict, TimeoutPort};
use laing_controller::transfer::{StreamPoll, TransferError, TransferPort};

#[test]
fn take_invalidates_the_previous_handle() {
    let mut port = TransferPort::new(());
    let h1 = port.take().handle;
    assert!(h1.get_state(&port).is_ok());
    let h2 = port.take().handle;
    // Every operation's guard now fails on the old handle and passes
    // on the new one, against the same underlying stream.
    assert_eq!(h1.get_state(&port), Err(TransferError::BrokenPipe));
    assert!(h2.get_state(&port).is_ok());
}

#[test]
fn take_wakes_the_parked_tasks() {
    let mut port = TransferPort::new(());
    let h = port.take().handle;
    port.note_read(&h, StreamPoll::Blocked, 7);
    port.note_write(&h, StreamPoll::Blocked, 9);
    let outcome = port.take();
    assert_eq!(outcome.wake_rx, Some(7));
    assert_eq!(outcome.wake_tx, Some(9));
    // The slots were cleared: a second take wakes nobody.
    let outcome = port.take();
    assert_eq!(outcome.wake_rx, None);
    assert_eq!(outcome.wake_tx, None);
}

#[test]
fn completed_operations_clear_their_slot() {
    let mut port = TransferPort::new(());
    let h = port.take().handle;
    port.note_read(&h, StreamPoll::Blocked, 1);
    port.note_read(&h, StreamPoll::Complete, 2);
    assert_eq!(port.take().wake_rx, None);
}

#[test]
fn newer_registration_overwrites_the_older() {
    // Only the most recent waiting task per direction is guaranteed a
    // wake.
    let mut port = TransferPort::new(());
    let h = port.take().handle;
    port.note_read(&h, StreamPoll::Blocked, 1);
    port.note_read(&h, StreamPoll::Blocked, 2);
    assert_eq!(port.take().wake_rx, Some(2));
}

#[test]
fn stale_handles_stay_stale() {
    let mut port = TransferPort::new(());
    let h1 = port.take().handle;
    let _h2 = port.take().handle;
    let h3 = port.take().handle;
    assert_eq!(h1.get_state(&port), Err(TransferError::BrokenPipe));
    assert_eq!(_h2.get_state(&port), Err(TransferError::BrokenPipe));
    assert!(h3.get_state(&port).is_ok());
}

#[test]
fn timeout_ready_read_disarms_the_timer() {
    let mut port = TimeoutPort::new((), 500);
    assert_eq!(port.poll_read(StreamPoll::Complete, false), ReadVerdict::Ready);
}

#[test]
fn timeout_blocked_read_arms_then_times_out() {
    let mut port = TimeoutPort::new((), 500);
    assert_eq!(port.poll_read(StreamPoll::Blocked, false), ReadVerdict::Pending);
    assert_eq!(port.poll_read(StreamPoll::Blocked, false), ReadVerdict::Pending);
    assert_eq!(port.poll_read(StreamPoll::Blocked, true), ReadVerdict::TimedOut);
    // The timer does not outlive the completed (failed) read.
    assert_eq!(port.poll_read(StreamPoll::Blocked, false), ReadVerdict::Pending);
}

#[test]
fn timeout_stream_ready_cancels_the_timer() {
    let mut port = TimeoutPort::new((), 500);
    assert_eq!(port.poll_read(StreamPoll::Blocked, false), ReadVerdict::Pending);
    assert_eq!(port.poll_read(StreamPoll::Complete, false), ReadVerdict::Ready);
}
