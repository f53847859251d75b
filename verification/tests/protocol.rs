//! Tests of the seven-segment decoder, the frame tables and the
//! wake/idle/drive/settle cycle.

use laing_controller::display::decode;
use laing_controller::engine::{Cycle, CycleAction, CycleEvent, CyclePhase, SettleTracker};
use laing_controller::frames::{frame_registers, FrameKind, READ_BASE, SLAVE_ADDR, WRITE_BASE, WRITE_COUNT};

/// Segment pattern of each decimal digit.
const PATTERNS: [u16; 10] = [
    0b0111111, 0b0000110, 0b1011011, 0b1001111, 0b1100110, 0b1101101, 0b1111101, 0b0000111,
    0b1111111, 0b1101111,
];

/// Registers whose display reads `hundreds tens ones`.
fn regs(hundreds: usize, tens: usize, ones: usize) -> [u16; 2] {
    let r0 = 0x8000 | (PATTERNS[tens] << 8) | PATTERNS[ones];
    let r1 = PATTERNS[hundreds];
    [r0, r1]
}

#[test]
fn decode_all_digits_in_ones_place() {
    for d in 0..10 {
        assert_eq!(decode(&regs(0, 0, d)), Some(d as u16));
    }
}

#[test]
fn decode_positional_weights() {
    assert_eq!(decode(&regs(0, 1, 0)), Some(10));
    assert_eq!(decode(&regs(1, 0, 0)), Some(100));
    assert_eq!(decode(&regs(7, 2, 5)), Some(725));
    assert_eq!(decode(&regs(9, 9, 9)), Some(999));
}

#[test]
fn decode_rejects_mask_violations() {
    // Bit 15 clear.
    assert_eq!(decode(&[0x003f, 0x003f]), None);
    // Bit 7 set in the low byte of the first register.
    assert_eq!(decode(&[0x80bf, 0x003f]), None);
    // High bits set in the second register.
    assert_eq!(decode(&[regs(0, 0, 0)[0], 0x0080]), None);
    assert_eq!(decode(&[regs(0, 0, 0)[0], 0xff00]), None);
}

#[test]
fn decode_rejects_unknown_patterns() {
    // An all-segments-off code names no digit, even in one position.
    assert_eq!(decode(&[0x8000, PATTERNS[0]]), None);
    let r0 = 0x8000 | (PATTERNS[1] << 8) | 0b0000001;
    assert_eq!(decode(&[r0, PATTERNS[0]]), None);
}

#[test]
fn frame_tables() {
    let base = |a: u16, b: u16| -> [u16; 14] {
        [0, 0, a, b, 0x8, 0x5, 0x1, 0x5a, 0x11, 0x8, 0x17, 0, 0, 0]
    };
    assert_eq!(frame_registers(FrameKind::Wake, 1), base(9, 0));
    assert_eq!(frame_registers(FrameKind::Idle, 1), base(0, 0));
    for slot in 1..=4u8 {
        assert_eq!(frame_registers(FrameKind::Lead, slot), base(slot as u16, 0));
        assert_eq!(frame_registers(FrameKind::Drive, slot), base(slot as u16, slot as u16));
    }
}

#[test]
fn exchange_addresses() {
    assert_eq!(SLAVE_ADDR, 0x01);
    assert_eq!(WRITE_BASE, 0x9c4);
    assert_eq!(WRITE_COUNT, 20);
    assert_eq!(READ_BASE, 0xa8c);
}

#[test]
fn settle_two_strikes_after_change() {
    // After a change to 11, driving runs through the first repeated
    // reading and stops exactly on the second repeat: the third
    // element of the trailing run, not the first.
    let mut t = SettleTracker::new(Some(10));
    assert!(!t.observe(Some(11)));
    assert!(!t.observe(Some(11)));
    assert!(t.observe(Some(11)));
}

#[test]
fn settle_change_resets_the_count() {
    let mut t = SettleTracker::new(Some(10));
    assert!(!t.observe(Some(10)));
    assert!(!t.observe(Some(11)));
    assert!(!t.observe(Some(12)));
    assert!(!t.observe(Some(12)));
    assert!(t.observe(Some(12)));
}

#[test]
fn settle_counts_unknown_as_a_value() {
    // Two consecutive unknowns still settle.
    let mut t = SettleTracker::new(Some(10));
    assert!(!t.observe(None));
    assert!(!t.observe(None));
    assert!(t.observe(None));
}

/// Run `cycle` one step and return the next action.
fn step(cycle: &mut Cycle, e: CycleEvent) -> CycleAction {
    cycle.step(e).action
}

#[test]
fn refresh_cycle_skips_the_drive_phase() {
    let mut c = Cycle::new(None);
    assert_eq!(step(&mut c, CycleEvent::Connected), CycleAction::Send(FrameKind::Wake));
    let ten = regs(0, 1, 0);
    assert_eq!(
        step(&mut c, CycleEvent::Reply(ten[0], ten[1])),
        CycleAction::Send(FrameKind::Idle)
    );
    assert_eq!(step(&mut c, CycleEvent::Reply(ten[0], ten[1])), CycleAction::Disconnect);
    assert_eq!(step(&mut c, CycleEvent::Disconnected), CycleAction::Finished);
    assert_eq!(c.phase, CyclePhase::Complete);
    assert_eq!(c.last_height(), Some(10));
}

#[test]
fn wake_retry_connects_exactly_once_per_failure() {
    // Three transport failures on the WAKE exchange, then a success:
    // exactly 4 connect attempts in all, and no error surfaces.
    let mut c = Cycle::new(None);
    let mut connects = 1; // Cycle::new starts with the initial connect.
    for _ in 0..3 {
        assert_eq!(step(&mut c, CycleEvent::Connected), CycleAction::Send(FrameKind::Wake));
        assert_eq!(step(&mut c, CycleEvent::ExchangeFailed), CycleAction::Disconnect);
        assert_eq!(step(&mut c, CycleEvent::Disconnected), CycleAction::Connect);
        connects += 1;
    }
    assert_eq!(step(&mut c, CycleEvent::Connected), CycleAction::Send(FrameKind::Wake));
    let ten = regs(0, 1, 0);
    // Fourth wake attempt succeeds; the cycle moves on, no Fail action.
    assert_eq!(
        step(&mut c, CycleEvent::Reply(ten[0], ten[1])),
        CycleAction::Send(FrameKind::Idle)
    );
    assert_eq!(connects, 4);
    assert_ne!(c.phase, CyclePhase::Failed);
}

#[test]
fn settle_sequence_stops_at_third_element_of_trailing_run() {
    // Decoded heights [10, 10, 10, 11, 11, 11] across one cycle's
    // exchanges (wake, idle, lead, then the drive loop): driving stops
    // exactly at the third element of the trailing run of 11s.
    let ten = regs(0, 1, 0);
    let eleven = regs(0, 1, 1);
    let mut c = Cycle::new(Some(1));
    assert_eq!(step(&mut c, CycleEvent::Connected), CycleAction::Send(FrameKind::Wake));
    // wake: 10
    assert_eq!(
        step(&mut c, CycleEvent::Reply(ten[0], ten[1])),
        CycleAction::Send(FrameKind::Idle)
    );
    // idle: 10
    assert_eq!(
        step(&mut c, CycleEvent::Reply(ten[0], ten[1])),
        CycleAction::Send(FrameKind::Lead)
    );
    // lead: 10
    assert_eq!(
        step(&mut c, CycleEvent::Reply(ten[0], ten[1])),
        CycleAction::DelaySend(FrameKind::Drive)
    );
    // drive: 11 — a change, keep driving
    assert_eq!(
        step(&mut c, CycleEvent::Reply(eleven[0], eleven[1])),
        CycleAction::DelaySend(FrameKind::Drive)
    );
    // drive: 11 — first repeat, absorbed
    assert_eq!(
        step(&mut c, CycleEvent::Reply(eleven[0], eleven[1])),
        CycleAction::DelaySend(FrameKind::Drive)
    );
    // drive: 11 — second repeat: settled, idle once more
    assert_eq!(
        step(&mut c, CycleEvent::Reply(eleven[0], eleven[1])),
        CycleAction::Send(FrameKind::Idle)
    );
    assert_eq!(
        step(&mut c, CycleEvent::Reply(eleven[0], eleven[1])),
        CycleAction::Disconnect
    );
    assert_eq!(step(&mut c, CycleEvent::Disconnected), CycleAction::Finished);
    assert_eq!(c.last_height(), Some(11));
}

#[test]
fn drive_terminates_two_exchanges_after_stabilization() {
    // A responder that echoes the lead's height for one exchange and a
    // changed height for every later one: the drive never stops while
    // the height keeps changing, and stops exactly two exchanges after
    // the responder stabilizes.
    let lead_height = regs(0, 2, 0); // 20
    let changed = regs(0, 2, 5); // 25
    let mut c = Cycle::new(Some(3));
    step(&mut c, CycleEvent::Connected);
    step(&mut c, CycleEvent::Reply(lead_height[0], lead_height[1])); // wake
    step(&mut c, CycleEvent::Reply(lead_height[0], lead_height[1])); // idle
    // lead: responder echoes 20
    assert_eq!(
        step(&mut c, CycleEvent::Reply(lead_height[0], lead_height[1])),
        CycleAction::DelaySend(FrameKind::Drive)
    );
    // first drive exchange: still 20 (one harmless repeat, absorbed)
    assert_eq!(
        step(&mut c, CycleEvent::Reply(lead_height[0], lead_height[1])),
        CycleAction::DelaySend(FrameKind::Drive)
    );
    // responder stabilizes on 25
    assert_eq!(
        step(&mut c, CycleEvent::Reply(changed[0], changed[1])),
        CycleAction::DelaySend(FrameKind::Drive)
    );
    // one exchange after stabilization: keep driving
    assert_eq!(
        step(&mut c, CycleEvent::Reply(changed[0], changed[1])),
        CycleAction::DelaySend(FrameKind::Drive)
    );
    // two exchanges after stabilization: settled
    assert_eq!(
        step(&mut c, CycleEvent::Reply(changed[0], changed[1])),
        CycleAction::Send(FrameKind::Idle)
    );
}

#[test]
fn failures_outside_the_wake_loop_are_fatal() {
    let ten = regs(0, 1, 0);
    // During idle:
    let mut c = Cycle::new(None);
    step(&mut c, CycleEvent::Connected);
    step(&mut c, CycleEvent::Reply(ten[0], ten[1]));
    assert_eq!(step(&mut c, CycleEvent::ExchangeFailed), CycleAction::Fail);
    assert_eq!(c.phase, CyclePhase::Failed);
    // During the drive loop:
    let mut c = Cycle::new(Some(2));
    step(&mut c, CycleEvent::Connected);
    step(&mut c, CycleEvent::Reply(ten[0], ten[1]));
    step(&mut c, CycleEvent::Reply(ten[0], ten[1]));
    step(&mut c, CycleEvent::Reply(ten[0], ten[1]));
    assert_eq!(step(&mut c, CycleEvent::ExchangeFailed), CycleAction::Fail);
    // A failed initial connect:
    let mut c = Cycle::new(None);
    assert_eq!(step(&mut c, CycleEvent::ConnectFailed), CycleAction::Fail);
}

#[test]
fn unreadable_heights_are_reported_as_unknown() {
    let mut c = Cycle::new(None);
    step(&mut c, CycleEvent::Connected);
    // Wake reply with an undecodable display: no height report.
    let s = c.step(CycleEvent::Reply(0x0000, 0x0000));
    assert_eq!(s.action, CycleAction::Send(FrameKind::Idle));
    assert_eq!(s.report, None);
    // A decodable reply reports its height.
    let ten = regs(0, 1, 0);
    let s = c.step(CycleEvent::Reply(ten[0], ten[1]));
    assert_eq!(s.report, Some(10));
}
