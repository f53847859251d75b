//! The device protocol cycle: wake, idle, drive, settle.
//!
//! One control cycle connects a Modbus client over a fresh transport
//! handle, wakes the controller (retrying without bound, since the
//! controller often accepts but fails to answer its first message),
//! idles it, optionally drives it toward a preset until the height
//! readings settle, idles it again and disconnects.
//!
//! The cycle is a state machine: the surrounding loop performs one
//! [`CycleAction`] at a time (connect, transmit a frame, disconnect)
//! and feeds the outcome back as a [`CycleEvent`].  Height decoding
//! and the settling decision happen here; the loop only moves bytes.

use vstd::prelude::*;

use crate::display::spec_decode;
use crate::display::decode;
use crate::frames::FrameKind;

verus! {

/// Milliseconds between drive exchanges: the wait a
/// [`CycleAction::DelaySend`] asks for before its transmit.
pub const DRIVE_DELAY_MS: u64 = 500;

/// Tracks consecutive unchanged height readings during the drive
/// phase.  Driving stops on the second consecutive reading that equals
/// the last recorded height: the two-strikes rule absorbs one harmless
/// repeated reading (the actuator reporting before it starts moving)
/// without stopping prematurely.
#[derive(Clone, Copy, Debug, PartialEq, Eq, Structural)]
pub struct SettleTracker {
    /// Last recorded height, in tenths; `None` when the display could
    /// not be decoded ("unknown" counts as a value of its own).
    pub last: Option<u16>,
    /// Consecutive readings so far that equalled `last`.
    pub since_change: u8,
}

/// The counter never needs to pass 1: at 1 the next unchanged reading
/// stops the drive instead of counting further.
pub open spec fn tracker_wf(t: SettleTracker) -> bool {
    t.since_change <= 1
}

/// A tracker that has just recorded `h` with no repeats seen.
pub open spec fn spec_tracker_new(h: Option<u16>) -> SettleTracker {
    SettleTracker { last: h, since_change: 0 }
}

/// One settling step: an unchanged reading either counts (first
/// strike) or stops the drive (second strike, tracker unchanged); a
/// changed reading records the new height and starts over.
pub open spec fn spec_observe(t: SettleTracker, h: Option<u16>) -> (SettleTracker, bool) {
    if h == t.last {
        if t.since_change >= 1 {
            (t, true)
        } else {
            (SettleTracker { last: t.last, since_change: (t.since_change + 1) as u8 }, false)
        }
    } else {
        (spec_tracker_new(h), false)
    }
}

impl SettleTracker {
    /// Start tracking from an initial reference reading.
    pub fn new(h: Option<u16>) -> (r: Self)
        ensures
            r == spec_tracker_new(h),
            tracker_wf(r),
    {
        SettleTracker { last: h, since_change: 0 }
    }

    /// Feed the next decoded height; returns whether driving stops.
    pub fn observe(&mut self, h: Option<u16>) -> (stop: bool)
        requires
            tracker_wf(*old(self)),
        ensures
            (*final(self), stop) == spec_observe(*old(self), h),
            tracker_wf(*final(self)),
            stop <==> h == old(self).last && old(self).since_change >= 1,
    {
        if h == self.last {
            if self.since_change >= 1 {
                true
            } else {
                self.since_change = self.since_change + 1;
                false
            }
        } else {
            self.last = h;
            self.since_change = 0;
            false
        }
    }
}

/// Settling law: after any change, driving runs through the first
/// repeated reading and stops exactly on the second — the third
/// element of the new run, never the first repeat.
pub proof fn lemma_two_strikes(t: SettleTracker, h: Option<u16>)
    requires
        h != t.last,
    ensures
        !spec_observe(t, h).1,
        !spec_observe(spec_observe(t, h).0, h).1,
        spec_observe(spec_observe(spec_observe(t, h).0, h).0, h).1,
        spec_observe(spec_observe(t, h).0, h).0.last == h,
{
}

/// A reading that differs from the last recorded height never stops
/// the drive, whatever came before it.
pub proof fn lemma_change_never_stops(t: SettleTracker, h: Option<u16>)
    requires
        h != t.last,
    ensures
        !spec_observe(t, h).1,
        spec_observe(t, h).0.last == h,
        spec_observe(t, h).0.since_change == 0,
{
}

/// Where a cycle stands.
#[derive(Clone, Copy, Debug, PartialEq, Eq, Structural)]
pub enum CyclePhase {
    /// Waiting for the initial connect.
    Connecting,
    /// Waiting for the outcome of a WAKE exchange.
    Waking,
    /// A WAKE exchange failed; waiting for the recovery disconnect.
    WakeDisconnecting,
    /// Waiting for the recovery reconnect before retrying WAKE.
    WakeConnecting,
    /// Waiting for the outcome of the first IDLE exchange.
    Idling,
    /// Waiting for the outcome of the preset's lead exchange.
    Leading,
    /// Driving: waiting for the outcome of a drive exchange.
    Driving,
    /// Waiting for the outcome of the post-drive IDLE exchange.
    PostIdling,
    /// Waiting for the final disconnect.
    Disconnecting,
    /// The cycle finished cleanly.
    Complete,
    /// A failure outside the wake retry loop ended the cycle.
    Failed,
}

/// What happened to the last action the surrounding loop performed.
#[derive(Clone, Copy, Debug, PartialEq, Eq, Structural)]
pub enum CycleEvent {
    /// Connecting the Modbus client succeeded.
    Connected,
    /// Connecting the Modbus client failed.
    ConnectFailed,
    /// An exchange succeeded; the first two response registers.
    Reply(u16, u16),
    /// An exchange failed (timeout, stale handle or protocol error).
    ExchangeFailed,
    /// Disconnecting the Modbus client succeeded.
    Disconnected,
    /// Disconnecting the Modbus client failed.
    DisconnectFailed,
}

/// What the surrounding loop must do next.
#[derive(Clone, Copy, Debug, PartialEq, Eq, Structural)]
pub enum CycleAction {
    /// Reclaim a fresh transport handle and connect a client over it.
    Connect,
    /// Perform the combined write/read exchange with the given frame.
    Send(FrameKind),
    /// Wait the inter-send delay, then perform the exchange.
    DelaySend(FrameKind),
    /// Cleanly disconnect the client (the stream itself stays open).
    Disconnect,
    /// The cycle is over; its result is the last recorded height.
    Finished,
    /// The cycle failed; the error propagates to the caller.
    Fail,
}

/// What one step hands back to the surrounding loop.
pub struct Step {
    /// The next action to perform.
    pub action: CycleAction,
    /// Height decoded from this step's reply, to be reported outward;
    /// `None` when there was no reply or the display was unreadable.
    pub report: Option<u16>,
}

/// One control cycle of the protocol engine.
pub struct Cycle {
    /// Target preset slot, or `None` for a bare refresh cycle.
    pub preset: Option<u8>,
    /// Where the cycle stands.
    pub phase: CyclePhase,
    /// Last recorded height and the settling state around it.
    pub tracker: SettleTracker,
}

/// A preset slot is one of the four buttons; the tracker invariant
/// holds throughout.
pub open spec fn cycle_wf(c: Cycle) -> bool {
    &&& c.preset matches Some(p) ==> 1 <= p <= 4
    &&& tracker_wf(c.tracker)
}

/// The transition relation of the cycle, as one total function from
/// state and event to successor state, action and height report.
/// Events that the current phase cannot produce are protocol faults
/// and fail the cycle.
pub open spec fn spec_step(c: Cycle, e: CycleEvent) -> (Cycle, CycleAction, Option<u16>) {
    let fail = (Cycle { phase: CyclePhase::Failed, ..c }, CycleAction::Fail, None::<u16>);
    match c.phase {
        CyclePhase::Connecting => match e {
            CycleEvent::Connected => (
                Cycle { phase: CyclePhase::Waking, ..c },
                CycleAction::Send(FrameKind::Wake),
                None,
            ),
            _ => fail,
        },
        CyclePhase::Waking => match e {
            CycleEvent::Reply(r0, r1) => (
                Cycle { phase: CyclePhase::Idling, ..c },
                CycleAction::Send(FrameKind::Idle),
                spec_decode(r0, r1),
            ),
            CycleEvent::ExchangeFailed => (
                Cycle { phase: CyclePhase::WakeDisconnecting, ..c },
                CycleAction::Disconnect,
                None,
            ),
            _ => fail,
        },
        CyclePhase::WakeDisconnecting => match e {
            CycleEvent::Disconnected => (
                Cycle { phase: CyclePhase::WakeConnecting, ..c },
                CycleAction::Connect,
                None,
            ),
            _ => fail,
        },
        CyclePhase::WakeConnecting => match e {
            CycleEvent::Connected => (
                Cycle { phase: CyclePhase::Waking, ..c },
                CycleAction::Send(FrameKind::Wake),
                None,
            ),
            _ => fail,
        },
        CyclePhase::Idling => match e {
            CycleEvent::Reply(r0, r1) => {
                let h = spec_decode(r0, r1);
                let c2 = Cycle { tracker: spec_tracker_new(h), ..c };
                if c.preset is Some {
                    (
                        Cycle { phase: CyclePhase::Leading, ..c2 },
                        CycleAction::Send(FrameKind::Lead),
                        h,
                    )
                } else {
                    (Cycle { phase: CyclePhase::Disconnecting, ..c2 }, CycleAction::Disconnect, h)
                }
            },
            _ => fail,
        },
        CyclePhase::Leading => match e {
            CycleEvent::Reply(r0, r1) => {
                let h = spec_decode(r0, r1);
                (
                    Cycle { phase: CyclePhase::Driving, tracker: spec_tracker_new(h), ..c },
                    CycleAction::DelaySend(FrameKind::Drive),
                    h,
                )
            },
            _ => fail,
        },
        CyclePhase::Driving => match e {
            CycleEvent::Reply(r0, r1) => {
                let h = spec_decode(r0, r1);
                let (t2, stop) = spec_observe(c.tracker, h);
                if stop {
                    (
                        Cycle { phase: CyclePhase::PostIdling, tracker: t2, ..c },
                        CycleAction::Send(FrameKind::Idle),
                        h,
                    )
                } else {
                    (
                        Cycle { phase: CyclePhase::Driving, tracker: t2, ..c },
                        CycleAction::DelaySend(FrameKind::Drive),
                        h,
                    )
                }
            },
            _ => fail,
        },
        CyclePhase::PostIdling => match e {
            CycleEvent::Reply(r0, r1) => {
                let h = spec_decode(r0, r1);
                (
                    Cycle { phase: CyclePhase::Disconnecting, tracker: spec_tracker_new(h), ..c },
                    CycleAction::Disconnect,
                    h,
                )
            },
            _ => fail,
        },
        CyclePhase::Disconnecting => match e {
            CycleEvent::Disconnected => (
                Cycle { phase: CyclePhase::Complete, ..c },
                CycleAction::Finished,
                None,
            ),
            _ => fail,
        },
        CyclePhase::Complete => (c, CycleAction::Finished, None),
        CyclePhase::Failed => (c, CycleAction::Fail, None),
    }
}

impl Cycle {
    /// Start a cycle.  `preset` names the target slot, or `None` for a
    /// bare refresh that only wakes and idles the controller.  The
    /// first action is always to connect.
    pub fn new(preset: Option<u8>) -> (r: Self)
        requires
            preset matches Some(p) ==> 1 <= p <= 4,
        ensures
            r.phase is Connecting,
            r.preset == preset,
            r.tracker == spec_tracker_new(None::<u16>),
            cycle_wf(r),
    {
        Cycle { preset, phase: CyclePhase::Connecting, tracker: SettleTracker::new(None) }
    }

    /// Advance the cycle by the outcome of the last action.  Decodes
    /// the height out of a reply, updates the settling state, and says
    /// what to do next; `report` carries the decoded height outward.
    pub fn step(&mut self, e: CycleEvent) -> (r: Step)
        requires
            cycle_wf(*old(self)),
        ensures
            *final(self) == spec_step(*old(self), e).0,
            r.action == spec_step(*old(self), e).1,
            r.report == spec_step(*old(self), e).2,
            cycle_wf(*final(self)),
    {
        match self.phase {
            CyclePhase::Connecting => match e {
                CycleEvent::Connected => {
                    self.phase = CyclePhase::Waking;
                    Step { action: CycleAction::Send(FrameKind::Wake), report: None }
                }
                _ => self.fail_step(),
            },
            CyclePhase::Waking => match e {
                CycleEvent::Reply(r0, r1) => {
                    let h = decode(&[r0, r1]);
                    self.phase = CyclePhase::Idling;
                    Step { action: CycleAction::Send(FrameKind::Idle), report: h }
                }
                CycleEvent::ExchangeFailed => {
                    self.phase = CyclePhase::WakeDisconnecting;
                    Step { action: CycleAction::Disconnect, report: None }
                }
                _ => self.fail_step(),
            },
            CyclePhase::WakeDisconnecting => match e {
                CycleEvent::Disconnected => {
                    self.phase = CyclePhase::WakeConnecting;
                    Step { action: CycleAction::Connect, report: None }
                }
                _ => self.fail_step(),
            },
            CyclePhase::WakeConnecting => match e {
                CycleEvent::Connected => {
                    self.phase = CyclePhase::Waking;
                    Step { action: CycleAction::Send(FrameKind::Wake), report: None }
                }
                _ => self.fail_step(),
            },
            CyclePhase::Idling => match e {
                CycleEvent::Reply(r0, r1) => {
                    let h = decode(&[r0, r1]);
                    self.tracker = SettleTracker::new(h);
                    if self.preset.is_some() {
                        self.phase = CyclePhase::Leading;
                        Step { action: CycleAction::Send(FrameKind::Lead), report: h }
                    } else {
                        self.phase = CyclePhase::Disconnecting;
                        Step { action: CycleAction::Disconnect, report: h }
                    }
                }
                _ => self.fail_step(),
            },
            CyclePhase::Leading => match e {
                CycleEvent::Reply(r0, r1) => {
                    let h = decode(&[r0, r1]);
                    self.tracker = SettleTracker::new(h);
                    self.phase = CyclePhase::Driving;
                    Step { action: CycleAction::DelaySend(FrameKind::Drive), report: h }
                }
                _ => self.fail_step(),
            },
            CyclePhase::Driving => match e {
                CycleEvent::Reply(r0, r1) => {
                    let h = decode(&[r0, r1]);
                    let stop = self.tracker.observe(h);
                    if stop {
                        self.phase = CyclePhase::PostIdling;
                        Step { action: CycleAction::Send(FrameKind::Idle), report: h }
                    } else {
                        Step { action: CycleAction::DelaySend(FrameKind::Drive), report: h }
                    }
                }
                _ => self.fail_step(),
            },
            CyclePhase::PostIdling => match e {
                CycleEvent::Reply(r0, r1) => {
                    let h = decode(&[r0, r1]);
                    self.tracker = SettleTracker::new(h);
                    self.phase = CyclePhase::Disconnecting;
                    Step { action: CycleAction::Disconnect, report: h }
                }
                _ => self.fail_step(),
            },
            CyclePhase::Disconnecting => match e {
                CycleEvent::Disconnected => {
                    self.phase = CyclePhase::Complete;
                    Step { action: CycleAction::Finished, report: None }
                }
                _ => self.fail_step(),
            },
            CyclePhase::Complete => Step { action: CycleAction::Finished, report: None },
            CyclePhase::Failed => Step { action: CycleAction::Fail, report: None },
        }
    }

    /// Mark the cycle failed; any event a phase cannot produce, and
    /// any failure outside the wake retry loop, lands here.
    fn fail_step(&mut self) -> (r: Step)
        ensures
            final(self).phase is Failed,
            final(self).preset == old(self).preset,
            final(self).tracker == old(self).tracker,
            r.action is Fail,
            r.report is None,
    {
        self.phase = CyclePhase::Failed;
        Step { action: CycleAction::Fail, report: None }
    }

    /// The last recorded height, the cycle's result once complete.
    pub fn last_height(&self) -> (r: Option<u16>)
        ensures
            r == self.tracker.last,
    {
        self.tracker.last
    }
}

/// The cycle after a whole sequence of events.
pub open spec fn spec_run(c: Cycle, es: Seq<CycleEvent>) -> Cycle
    decreases es.len(),
{
    if es.len() == 0 {
        c
    } else {
        spec_run(spec_step(c, es[0]).0, es.skip(1))
    }
}

/// How many connect attempts a sequence of events provokes.
pub open spec fn spec_connect_count(c: Cycle, es: Seq<CycleEvent>) -> nat
    decreases es.len(),
{
    if es.len() == 0 {
        0
    } else {
        (if spec_step(c, es[0]).1 is Connect {
            1nat
        } else {
            0nat
        }) + spec_connect_count(spec_step(c, es[0]).0, es.skip(1))
    }
}

/// The events of `k` failed wake attempts: each failure is followed by
/// the recovery disconnect and reconnect.
pub open spec fn wake_failure_events(k: nat) -> Seq<CycleEvent>
    decreases k,
{
    if k == 0 {
        Seq::empty()
    } else {
        seq![CycleEvent::ExchangeFailed, CycleEvent::Disconnected, CycleEvent::Connected]
            + wake_failure_events((k - 1) as nat)
    }
}

/// Running a cycle splits over concatenated event sequences.
proof fn lemma_run_append(c: Cycle, s1: Seq<CycleEvent>, s2: Seq<CycleEvent>)
    ensures
        spec_run(c, s1 + s2) == spec_run(spec_run(c, s1), s2),
        spec_connect_count(c, s1 + s2) == spec_connect_count(c, s1) + spec_connect_count(
            spec_run(c, s1),
            s2,
        ),
    decreases s1.len(),
{
    if s1.len() == 0 {
        assert(s1 + s2 =~= s2);
    } else {
        assert((s1 + s2).skip(1) =~= s1.skip(1) + s2);
        lemma_run_append(spec_step(c, s1[0]).0, s1.skip(1), s2);
    }
}

/// Wake retry theorem: from the waking state, any number `k` of failed
/// WAKE exchanges — each answered by a disconnect, a reconnect and a
/// retransmit — returns the cycle to the very same waking state, costs
/// exactly one connect attempt per failure, and surfaces no error; a
/// successful reply then moves the cycle on to idling.  Counting the
/// initial connect, a cycle whose wake exchange fails `k` times before
/// succeeding makes exactly `k + 1` connect attempts.
pub proof fn lemma_wake_retry_unbounded(c: Cycle, k: nat, r0: u16, r1: u16)
    requires
        c.phase is Waking,
    ensures
        spec_run(c, wake_failure_events(k)) == c,
        spec_connect_count(c, wake_failure_events(k)) == k,
        spec_step(c, CycleEvent::Reply(r0, r1)).0.phase is Idling,
    decreases k,
{
    if k != 0 {
        let recovery = seq![
            CycleEvent::ExchangeFailed,
            CycleEvent::Disconnected,
            CycleEvent::Connected,
        ];
        let after_fail = seq![CycleEvent::Disconnected, CycleEvent::Connected];
        let after_disc = seq![CycleEvent::Connected];
        let tail = wake_failure_events((k - 1) as nat);
        let c1 = spec_step(c, CycleEvent::ExchangeFailed).0;
        let c2 = spec_step(c1, CycleEvent::Disconnected).0;
        let c3 = spec_step(c2, CycleEvent::Connected).0;
        assert(recovery.skip(1) =~= after_fail);
        assert(after_fail.skip(1) =~= after_disc);
        assert(after_disc.skip(1) =~= Seq::<CycleEvent>::empty());
        assert(spec_run(c, recovery) == spec_run(c1, after_fail));
        assert(spec_run(c1, after_fail) == spec_run(c2, after_disc));
        assert(spec_run(c2, after_disc) == spec_run(c3, after_disc.skip(1)));
        assert(spec_run(c3, Seq::<CycleEvent>::empty()) == c3);
        assert(c3 == c);
        assert(spec_connect_count(c, recovery) == spec_connect_count(c1, after_fail));
        assert(spec_connect_count(c1, after_fail) == 1 + spec_connect_count(c2, after_disc));
        assert(spec_connect_count(c2, after_disc) == spec_connect_count(c3, after_disc.skip(1)));
        assert(spec_connect_count(c3, Seq::<CycleEvent>::empty()) == 0);
        lemma_wake_retry_unbounded(c, (k - 1) as nat, r0, r1);
        lemma_run_append(c, recovery, tail);
    }
}

/// Every height a step reports came out of the decoder, so it is a
/// reading in `[0, 999]`.
pub proof fn lemma_report_range(c: Cycle, e: CycleEvent)
    ensures
        spec_step(c, e).2 matches Some(h) ==> h <= 999,
{
    if let CycleEvent::Reply(r0, r1) = e {
        crate::display::lemma_decode_range(r0, r1);
    }
}

} // verus!
