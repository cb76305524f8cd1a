//! The failures that an exchange with a motor can end in.
//!
//! The kinds are kept apart so that a caller can tell a buffer that it has to
//! enlarge from line noise that it may retry and from a fault that the motor
//! itself reports.

use crate::protocol::motor_error::{ErrorFlags, ERROR_FLAGS};
use vstd::prelude::*;
use vstd::std_specs::convert::FromSpecImpl;

verus! {

/// A failed exchange of one instruction and its response.
#[derive(Debug)]
pub enum TransferError<E> {
    /// The instruction could not be written.
    WriteError(WriteError<E>),
    /// The response could not be read.
    ReadError(ReadError<E>),
}

/// A failed write of an instruction.
#[derive(Debug)]
pub enum WriteError<E> {
    /// The write buffer cannot hold the whole packet.
    BufferTooSmall(BufferTooSmallError),
    /// The pending input could not be discarded before the write.
    DiscardBuffer(E),
    /// The packet could not be written.
    Write(E),
}

/// A buffer cannot hold a whole message.
#[derive(Debug, Clone, Copy, PartialEq, Eq)]
pub struct BufferTooSmallError {
    /// The size that the message needs.
    pub required_size: usize,
    /// The size that the buffer has.
    pub total_size: usize,
}

/// A failed read of a response.
#[derive(Debug)]
pub enum ReadError<E> {
    /// The read buffer cannot hold the whole message.
    BufferFull(BufferTooSmallError),
    /// The transport failed, or the deadline passed.
    Io(E),
    /// The message that arrived is not valid.
    InvalidMessage(InvalidMessage),
    /// The motor answered with an error.
    MotorError(MotorError),
}

/// A message that arrived but is not valid.
#[derive(Debug, Clone, Copy, PartialEq, Eq)]
pub enum InvalidMessage {
    /// The checksum does not match the message.
    InvalidChecksum(InvalidChecksum),
    /// The message comes from another motor than the one addressed.
    InvalidPacketId(InvalidPacketId),
    /// The message holds another number of parameters than expected.
    InvalidParameterCount(InvalidParameterCount),
}

/// An error that the motor reports in an otherwise valid response.
#[derive(Debug, Clone, Copy, PartialEq, Eq)]
pub struct MotorError {
    /// The flags that the motor sent, one of which is an error.
    pub flags: ErrorFlags,
}

/// The checksum byte of a message differs from the one computed over it.
#[derive(Debug, Clone, Copy, PartialEq, Eq)]
pub struct InvalidChecksum {
    /// The checksum that the message carries.
    pub message: u8,
    /// The checksum computed over the message.
    pub computed: u8,
}

/// A message carries another packet id than expected.
#[derive(Debug, Clone, Copy, PartialEq, Eq)]
pub struct InvalidPacketId {
    /// The id that the message carries.
    pub actual: u8,
    /// The id that was expected, if one was.
    pub expected: Option<u8>,
}

/// The number of parameters that a message should have held.
#[derive(Debug, Clone, Copy, PartialEq, Eq)]
pub enum ExpectedCount {
    /// Exactly this many.
    Exact(usize),
    /// At most this many.
    Max(usize),
    /// At least this many.
    Min(usize),
}

/// A message holds another number of parameters than expected.
#[derive(Debug, Clone, Copy, PartialEq, Eq)]
pub struct InvalidParameterCount {
    /// The number of parameters in the message.
    pub actual: usize,
    /// The number that was expected.
    pub expected: ExpectedCount,
}

impl BufferTooSmallError {
    /// Checks that a buffer of `total_size` bytes can hold `required_size`
    /// bytes.
    pub fn check(required_size: usize, total_size: usize) -> (result: Result<(), Self>)
        ensures
            required_size <= total_size ==> result == Ok::<(), Self>(()),
            required_size > total_size ==> result == Err::<(), Self>(
                (BufferTooSmallError { required_size, total_size }),
            ),
    {
        if required_size <= total_size {
            Ok(())
        } else {
            Err(Self { required_size, total_size })
        }
    }
}

impl MotorError {
    /// The failure that the flags of a response stand for: the flags
    /// themselves where one of them is an error, and none where the byte
    /// could not be read as flags or holds warnings only.
    pub open spec fn of(flags: Option<ErrorFlags>) -> Option<MotorError> {
        match flags {
            Some(f) if f.bits & ERROR_FLAGS != 0 => Some(MotorError { flags: f }),
            _ => None,
        }
    }

    /// Checks the flags of a response for an error. Warnings are let through,
    /// since the instruction was carried out all the same.
    pub fn check(flags: Option<ErrorFlags>) -> (result: Result<(), Self>)
        ensures
            Self::of(flags) is None ==> result == Ok::<(), Self>(()),
            Self::of(flags) is Some ==> result == Err::<(), Self>(Self::of(flags).unwrap()),
    {
        match flags {
            None => Ok(()),
            Some(flags) => {
                if flags.intersects(ErrorFlags::errors()) {
                    Err(Self { flags })
                } else {
                    Ok(())
                }
            },
        }
    }
}

impl InvalidPacketId {
    /// Checks that a message carries the packet id that was expected.
    pub fn check(actual: u8, expected: u8) -> (result: Result<(), Self>)
        ensures
            actual == expected ==> result == Ok::<(), Self>(()),
            actual != expected ==> result == Err::<(), Self>(
                (InvalidPacketId { actual, expected: Some(expected) }),
            ),
    {
        if actual == expected {
            Ok(())
        } else {
            Err(Self { actual, expected: Some(expected) })
        }
    }
}

impl InvalidParameterCount {
    /// Checks that a message holds exactly `expected` parameters.
    pub fn check(actual: usize, expected: usize) -> (result: Result<(), Self>)
        ensures
            actual == expected ==> result == Ok::<(), Self>(()),
            actual != expected ==> result == Err::<(), Self>(
                (InvalidParameterCount { actual, expected: ExpectedCount::Exact(expected) }),
            ),
    {
        if actual == expected {
            Ok(())
        } else {
            Err(Self { actual, expected: ExpectedCount::Exact(expected) })
        }
    }

    /// Checks that a message holds at most `max` parameters.
    pub fn check_max(actual: usize, max: usize) -> (result: Result<(), Self>)
        ensures
            actual <= max ==> result == Ok::<(), Self>(()),
            actual > max ==> result == Err::<(), Self>(
                (InvalidParameterCount { actual, expected: ExpectedCount::Max(max) }),
            ),
    {
        if actual <= max {
            Ok(())
        } else {
            Err(Self { actual, expected: ExpectedCount::Max(max) })
        }
    }

    /// Checks that a message holds at least `min` parameters.
    pub fn check_min(actual: usize, min: usize) -> (result: Result<(), Self>)
        ensures
            actual >= min ==> result == Ok::<(), Self>(()),
            actual < min ==> result == Err::<(), Self>(
                (InvalidParameterCount { actual, expected: ExpectedCount::Min(min) }),
            ),
    {
        if actual >= min {
            Ok(())
        } else {
            Err(Self { actual, expected: ExpectedCount::Min(min) })
        }
    }
}

/// A failed write is a failed transfer.
impl<E> From<WriteError<E>> for TransferError<E> {
    fn from(value: WriteError<E>) -> (result: Self) {
        TransferError::WriteError(value)
    }
}

impl<E> FromSpecImpl<WriteError<E>> for TransferError<E> {
    open spec fn obeys_from_spec() -> bool {
        true
    }

    open spec fn from_spec(value: WriteError<E>) -> Self {
        TransferError::WriteError(value)
    }
}

/// A failed read is a failed transfer.
impl<E> From<ReadError<E>> for TransferError<E> {
    fn from(value: ReadError<E>) -> (result: Self) {
        TransferError::ReadError(value)
    }
}

impl<E> FromSpecImpl<ReadError<E>> for TransferError<E> {
    open spec fn obeys_from_spec() -> bool {
        true
    }

    open spec fn from_spec(value: ReadError<E>) -> Self {
        TransferError::ReadError(value)
    }
}

/// An invalid message is a failed read.
impl<E> From<InvalidMessage> for TransferError<E> {
    fn from(value: InvalidMessage) -> (result: Self) {
        TransferError::ReadError(ReadError::InvalidMessage(value))
    }
}

impl<E> FromSpecImpl<InvalidMessage> for TransferError<E> {
    open spec fn obeys_from_spec() -> bool {
        true
    }

    open spec fn from_spec(value: InvalidMessage) -> Self {
        TransferError::ReadError(ReadError::InvalidMessage(value))
    }
}

/// A message from another motor is an invalid message.
impl<E> From<InvalidPacketId> for TransferError<E> {
    fn from(value: InvalidPacketId) -> (result: Self) {
        TransferError::ReadError(
            ReadError::InvalidMessage(InvalidMessage::InvalidPacketId(value)),
        )
    }
}

impl<E> FromSpecImpl<InvalidPacketId> for TransferError<E> {
    open spec fn obeys_from_spec() -> bool {
        true
    }

    open spec fn from_spec(value: InvalidPacketId) -> Self {
        TransferError::ReadError(
            ReadError::InvalidMessage(InvalidMessage::InvalidPacketId(value)),
        )
    }
}

/// An error that the motor reports is a failed read.
impl<E> From<MotorError> for TransferError<E> {
    fn from(value: MotorError) -> (result: Self) {
        TransferError::ReadError(ReadError::MotorError(value))
    }
}

impl<E> FromSpecImpl<MotorError> for TransferError<E> {
    open spec fn obeys_from_spec() -> bool {
        true
    }

    open spec fn from_spec(value: MotorError) -> Self {
        TransferError::ReadError(ReadError::MotorError(value))
    }
}

/// A write buffer that is too small is a failed write.
impl<E> From<BufferTooSmallError> for WriteError<E> {
    fn from(value: BufferTooSmallError) -> (result: Self) {
        WriteError::BufferTooSmall(value)
    }
}

impl<E> FromSpecImpl<BufferTooSmallError> for WriteError<E> {
    open spec fn obeys_from_spec() -> bool {
        true
    }

    open spec fn from_spec(value: BufferTooSmallError) -> Self {
        WriteError::BufferTooSmall(value)
    }
}

/// A read buffer that is too small is a failed read.
impl<E> From<BufferTooSmallError> for ReadError<E> {
    fn from(value: BufferTooSmallError) -> (result: Self) {
        ReadError::BufferFull(value)
    }
}

impl<E> FromSpecImpl<BufferTooSmallError> for ReadError<E> {
    open spec fn obeys_from_spec() -> bool {
        true
    }

    open spec fn from_spec(value: BufferTooSmallError) -> Self {
        ReadError::BufferFull(value)
    }
}

/// An invalid message is a failed read.
impl<E> From<InvalidMessage> for ReadError<E> {
    fn from(value: InvalidMessage) -> (result: Self) {
        ReadError::InvalidMessage(value)
    }
}

impl<E> FromSpecImpl<InvalidMessage> for ReadError<E> {
    open spec fn obeys_from_spec() -> bool {
        true
    }

    open spec fn from_spec(value: InvalidMessage) -> Self {
        ReadError::InvalidMessage(value)
    }
}

/// A wrong checksum is an invalid message.
impl<E> From<InvalidChecksum> for ReadError<E> {
    fn from(value: InvalidChecksum) -> (result: Self) {
        ReadError::InvalidMessage(InvalidMessage::InvalidChecksum(value))
    }
}

impl<E> FromSpecImpl<InvalidChecksum> for ReadError<E> {
    open spec fn obeys_from_spec() -> bool {
        true
    }

    open spec fn from_spec(value: InvalidChecksum) -> Self {
        ReadError::InvalidMessage(InvalidMessage::InvalidChecksum(value))
    }
}

/// A message from another motor is an invalid message.
impl<E> From<InvalidPacketId> for ReadError<E> {
    fn from(value: InvalidPacketId) -> (result: Self) {
        ReadError::InvalidMessage(InvalidMessage::InvalidPacketId(value))
    }
}

impl<E> FromSpecImpl<InvalidPacketId> for ReadError<E> {
    open spec fn obeys_from_spec() -> bool {
        true
    }

    open spec fn from_spec(value: InvalidPacketId) -> Self {
        ReadError::InvalidMessage(InvalidMessage::InvalidPacketId(value))
    }
}

/// An error that the motor reports is a failed read.
impl<E> From<MotorError> for ReadError<E> {
    fn from(value: MotorError) -> (result: Self) {
        ReadError::MotorError(value)
    }
}

impl<E> FromSpecImpl<MotorError> for ReadError<E> {
    open spec fn obeys_from_spec() -> bool {
        true
    }

    open spec fn from_spec(value: MotorError) -> Self {
        ReadError::MotorError(value)
    }
}

/// A wrong checksum is an invalid message.
impl From<InvalidChecksum> for InvalidMessage {
    fn from(value: InvalidChecksum) -> (result: Self) {
        InvalidMessage::InvalidChecksum(value)
    }
}

impl FromSpecImpl<InvalidChecksum> for InvalidMessage {
    open spec fn obeys_from_spec() -> bool {
        true
    }

    open spec fn from_spec(value: InvalidChecksum) -> Self {
        InvalidMessage::InvalidChecksum(value)
    }
}

/// A message from another motor is an invalid message.
impl From<InvalidPacketId> for InvalidMessage {
    fn from(value: InvalidPacketId) -> (result: Self) {
        InvalidMessage::InvalidPacketId(value)
    }
}

impl FromSpecImpl<InvalidPacketId> for InvalidMessage {
    open spec fn obeys_from_spec() -> bool {
        true
    }

    open spec fn from_spec(value: InvalidPacketId) -> Self {
        InvalidMessage::InvalidPacketId(value)
    }
}

/// A wrong number of parameters is an invalid message.
impl From<InvalidParameterCount> for InvalidMessage {
    fn from(value: InvalidParameterCount) -> (result: Self) {
        InvalidMessage::InvalidParameterCount(value)
    }
}

impl FromSpecImpl<InvalidParameterCount> for InvalidMessage {
    open spec fn obeys_from_spec() -> bool {
        true
    }

    open spec fn from_spec(value: InvalidParameterCount) -> Self {
        InvalidMessage::InvalidParameterCount(value)
    }
}

} // verus!
