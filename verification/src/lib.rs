//! Verified core of a serial lift-desk controller.
//!
//! The library contains the logic of the controller: the seven-segment
//! height decoder, the fixed Modbus register frames, the revocable
//! transport state machine, the read-timeout adapter's decision logic,
//! the wake/idle/drive/settle protocol cycle, the latest-value height
//! channel and bounded command channel models, and the broker-side
//! event-pump and publisher decision machines.  All I/O (serial port,
//! broker sockets, timers) lives outside the library and feeds these
//! machines plain values.

pub mod channel;
pub mod display;
pub mod engine;
pub mod frames;
pub mod mqtt;
pub mod settings;
pub mod timeout;
pub mod transfer;
