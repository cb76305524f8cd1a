//! Master-side driver core for a half-duplex, checksum-framed serial protocol
//! that commands actuators ("motors") addressed by a one-byte id.
//!
//! The library holds the protocol and does no I/O. A [`Bus`] encodes the
//! packet of an instruction into its write buffer and hands out the bytes to
//! send; it takes in the bytes that were read from the line, finds the next
//! packet among them, verifies it and hands out the response. Opening the
//! serial port, writing, reading and waiting for a deadline are left to
//! whoever owns the port, so the same rules serve a caller that blocks and
//! one that suspends.
//!
//! One exchange runs like this:
//!
//! 1. encode the instruction, for example with [`Bus::ping`] or
//!    [`Bus::read`], discard the pending input of the port and send the bytes;
//! 2. make the deadline from [`Bus::response_timeout`];
//! 3. call [`Bus::poll_packet`]; while it reports no packet, read from the
//!    port, hand the bytes to [`Bus::receive`] and poll again;
//! 4. take the response with [`Bus::read_response`] or [`Bus::read_value`].

#![allow(unused_imports)]

pub mod bus;
pub mod checksum;
pub mod error;
pub mod framing;
pub mod instructions;
pub mod protocol;
pub mod timing;

pub use bus::Bus;
pub use framing::{BusView, ReadStep, Transfer};
pub use instructions::multi_write::MultiWrite;
pub use protocol::registers;
pub use protocol::{
    ConfigRegister, ErrorFlags, Instruction, Register, Response, StatusRegister, ValueType,
    WritableRegister, WritableStatusRegister, ERROR_FLAGS, WARNING_FLAGS,
};
pub use timing::TransferTime;
