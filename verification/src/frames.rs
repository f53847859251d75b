//! Fixed Modbus register frames of the controller protocol.
//!
//! Every exchange writes one 14-register payload and reads back 20
//! registers.  The payloads are fixed tables: a WAKE frame, an IDLE
//! frame, and per preset slot a "lead" frame and a "drive" frame.  All
//! of them share one base pattern and differ only in registers 2 and 3.

use vstd::prelude::*;

verus! {

/// Modbus slave address of the controller.
pub const SLAVE_ADDR: u8 = 0x01;

/// Base register of the written payload.
pub const WRITE_BASE: u16 = 0x9c4;

/// Number of registers written in each exchange.
pub const WRITE_COUNT: u16 = 20;

/// Base register of the read-back block.
pub const READ_BASE: u16 = 0xa8c;

/// Which of the fixed frames an exchange carries.
#[derive(Clone, Copy, Debug, PartialEq, Eq, Structural)]
pub enum FrameKind {
    /// Wakes the controller; retried until it answers.
    Wake,
    /// Leaves the controller idle; also polls the height display.
    Idle,
    /// First frame of a drive toward a preset.
    Lead,
    /// Repeated frame that keeps driving toward a preset.
    Drive,
}

/// The shared 14-register pattern; every frame fixes registers 2 and 3.
pub open spec fn spec_frame_pair(a: u16, b: u16) -> Seq<u16> {
    seq![
        0u16, 0u16, a, b, 0x8u16, 0x5u16, 0x1u16, 0x5au16, 0x11u16, 0x8u16, 0x17u16, 0u16, 0u16,
        0u16,
    ]
}

/// The registers of a frame: WAKE carries 9/0, IDLE 0/0, a preset's
/// lead frame carries the slot number and 0, its drive frame the slot
/// number twice.
pub open spec fn spec_frame(kind: FrameKind, preset: u8) -> Seq<u16> {
    match kind {
        FrameKind::Wake => spec_frame_pair(9, 0),
        FrameKind::Idle => spec_frame_pair(0, 0),
        FrameKind::Lead => spec_frame_pair(preset as u16, 0),
        FrameKind::Drive => spec_frame_pair(preset as u16, preset as u16),
    }
}

/// Build the register payload for a frame.  The preset slot is only
/// read for lead and drive frames.
pub fn frame_registers(kind: FrameKind, preset: u8) -> (r: [u16; 14])
    requires
        kind is Lead || kind is Drive ==> 1 <= preset <= 4,
    ensures
        r@ == spec_frame(kind, preset),
{
    let (a, b): (u16, u16) = match kind {
        FrameKind::Wake => (9, 0),
        FrameKind::Idle => (0, 0),
        FrameKind::Lead => (preset as u16, 0),
        FrameKind::Drive => (preset as u16, preset as u16),
    };
    let r: [u16; 14] = [0, 0, a, b, 0x8, 0x5, 0x1, 0x5a, 0x11, 0x8, 0x17, 0, 0, 0];
    proof {
        assert(r@ =~= spec_frame_pair(a, b));
    }
    r
}

} // verus!
