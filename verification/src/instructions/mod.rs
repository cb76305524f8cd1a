//! The instructions that a bus can send, and the responses that they get.
//!
//! Each instruction is encoded into the write buffer of the bus and handed
//! out as the bytes to send. Where the motor answers, the number of bytes to
//! expect comes with it.

pub mod multi_write;
pub mod ping;
pub mod read;
pub mod save_config;
pub mod write;
