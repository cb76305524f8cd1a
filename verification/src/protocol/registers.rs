//! Registers, and the codec of the values they hold.
//!
//! A register is a 32-bit value at an address within its class. Config
//! registers keep their values over a power cycle once the configuration is
//! saved; status registers do not. A class is read with one instruction and
//! written with another.
//!
//! A value travels as four bytes, least significant first. Some registers
//! hold an unsigned integer and the others a single-precision float; the
//! library carries the 32 bits of either, and [`ValueType`] says which of the
//! two they are.

use crate::error::{BufferTooSmallError, ExpectedCount, InvalidMessage, InvalidParameterCount};
use crate::protocol::{ConfigRegister, Instruction, StatusRegister};
use vstd::prelude::*;

verus! {

/// The number of bytes that the value of a register takes.
pub const ENCODED_SIZE: u8 = 4;

/// The kind of number that the 32 bits of a register stand for.
#[derive(Debug, Clone, Copy, PartialEq, Eq, Structural)]
pub enum ValueType {
    /// An unsigned integer.
    Unsigned,
    /// A single-precision float, as its bit pattern.
    Float,
}

/// The four bytes of `value`, least significant first.
pub open spec fn le_bytes(value: u32) -> Seq<u8> {
    seq![
        (value % 256) as u8,
        (value / 256 % 256) as u8,
        (value / 65536 % 256) as u8,
        (value / 16777216) as u8,
    ]
}

/// The value whose four bytes, least significant first, are `bytes`.
pub open spec fn le_value(bytes: Seq<u8>) -> u32
    recommends
        bytes.len() == ENCODED_SIZE,
{
    (bytes[0] as nat + bytes[1] as nat * 256 + bytes[2] as nat * 65536 + bytes[3] as nat
        * 16777216) as u32
}

/// What decoding `buffer` gives: its value where it holds exactly four
/// bytes, and the count that was wrong otherwise.
pub open spec fn decoded(buffer: Seq<u8>) -> Result<u32, InvalidMessage> {
    if buffer.len() == ENCODED_SIZE {
        Ok(le_value(buffer))
    } else {
        Err(
            InvalidMessage::InvalidParameterCount(
                InvalidParameterCount {
                    actual: buffer.len() as usize,
                    expected: ExpectedCount::Exact(ENCODED_SIZE as usize),
                },
            ),
        )
    }
}

/// Decoding the bytes of a value gives the value back.
pub proof fn lemma_decode_encode(value: u32)
    ensures
        le_bytes(value).len() == ENCODED_SIZE,
        le_value(le_bytes(value)) == value,
        decoded(le_bytes(value)) == Ok::<u32, InvalidMessage>(value),
{
}

/// Encoding the value of four bytes gives the bytes back.
pub proof fn lemma_encode_decode(bytes: Seq<u8>)
    requires
        bytes.len() == ENCODED_SIZE,
    ensures
        le_bytes(le_value(bytes)) == bytes,
{
    assert(le_bytes(le_value(bytes)) =~= bytes);
}

/// Reads a value from the four bytes of `buffer`.
pub fn decode_value(buffer: &[u8]) -> (result: Result<u32, InvalidMessage>)
    ensures
        result == decoded(buffer@),
{
    match InvalidParameterCount::check(buffer.len(), ENCODED_SIZE as usize) {
        Err(e) => {
            return Err(InvalidMessage::InvalidParameterCount(e));
        },
        Ok(()) => {},
    }
    let value = buffer[0] as u32 + buffer[1] as u32 * 256 + buffer[2] as u32 * 65536 + buffer[3] as u32
        * 16777216;
    Ok(value)
}

/// The four bytes of `value`, least significant first.
pub fn value_to_bytes(value: u32) -> (bytes: [u8; 4])
    ensures
        bytes@ == le_bytes(value),
{
    let bytes = [
        (value % 256) as u8,
        (value / 256 % 256) as u8,
        (value / 65536 % 256) as u8,
        (value / 16777216) as u8,
    ];
    assert(bytes@ =~= le_bytes(value));
    bytes
}

/// Writes the four bytes of `value` to the start of `buffer`. Where `buffer`
/// is shorter than that, nothing is written.
pub fn encode_value(value: u32, buffer: &mut [u8]) -> (result: Result<(), BufferTooSmallError>)
    ensures
        final(buffer)@.len() == old(buffer)@.len(),
        old(buffer)@.len() >= ENCODED_SIZE ==> {
            &&& result == Ok::<(), BufferTooSmallError>(())
            &&& final(buffer)@ == le_bytes(value) + old(buffer)@.skip(ENCODED_SIZE as int)
        },
        old(buffer)@.len() < ENCODED_SIZE ==> {
            &&& result == Err::<(), BufferTooSmallError>(
                (BufferTooSmallError {
                    required_size: ENCODED_SIZE as usize,
                    total_size: old(buffer)@.len() as usize,
                }),
            )
            &&& final(buffer)@ == old(buffer)@
        },
{
    match BufferTooSmallError::check(ENCODED_SIZE as usize, buffer.len()) {
        Err(e) => {
            return Err(e);
        },
        Ok(()) => {},
    }
    let bytes = value_to_bytes(value);
    buffer[0] = bytes[0];
    buffer[1] = bytes[1];
    buffer[2] = bytes[2];
    buffer[3] = bytes[3];
    assert(buffer@ =~= le_bytes(value) + old(buffer)@.skip(ENCODED_SIZE as int));
    Ok(())
}

/// A register that can be read.
///
/// The class of the register, and with it the instruction, belongs to the
/// type; the address belongs to the value.
pub trait Register {
    /// The instruction that reads a register of this class.
    spec fn spec_read_inst() -> u8;

    /// The address of the register within its class.
    spec fn spec_address(&self) -> u8;

    /// The kind of number that the register holds.
    spec fn spec_value_type(&self) -> ValueType;

    /// The instruction that reads a register of this class.
    fn read_inst() -> (opcode: u8)
        ensures
            opcode == Self::spec_read_inst(),
    ;

    /// The address of the register within its class.
    fn address(&self) -> (address: u8)
        ensures
            address == self.spec_address(),
    ;

    /// The kind of number that the register holds.
    fn value_type(&self) -> (value_type: ValueType)
        ensures
            value_type == self.spec_value_type(),
    ;

    /// Reads the value of a register from the parameters of a response. Fails
    /// where they are not exactly four bytes.
    fn decode(buffer: &[u8]) -> (result: Result<u32, InvalidMessage>)
        ensures
            result == decoded(buffer@),
    ;
}

/// A register that can be written too.
pub trait WritableRegister: Register {
    /// The instruction that writes a register of this class.
    spec fn spec_write_inst() -> u8;

    /// The instruction that writes a register of this class.
    fn write_inst() -> (opcode: u8)
        ensures
            opcode == Self::spec_write_inst(),
    ;

    /// The number of bytes that a value takes.
    fn encoded_size() -> (size: u8)
        ensures
            size == ENCODED_SIZE,
    ;

    /// Writes the bytes of `value` to the start of `buffer`. Fails, and
    /// writes nothing, where `buffer` is shorter than four bytes.
    fn encode(value: u32, buffer: &mut [u8]) -> (result: Result<(), BufferTooSmallError>)
        ensures
            final(buffer)@.len() == old(buffer)@.len(),
            old(buffer)@.len() >= ENCODED_SIZE ==> {
                &&& result == Ok::<(), BufferTooSmallError>(())
                &&& final(buffer)@ == le_bytes(value) + old(buffer)@.skip(ENCODED_SIZE as int)
            },
            old(buffer)@.len() < ENCODED_SIZE ==> {
                &&& result == Err::<(), BufferTooSmallError>(
                    (BufferTooSmallError {
                        required_size: ENCODED_SIZE as usize,
                        total_size: old(buffer)@.len() as usize,
                    }),
                )
                &&& final(buffer)@ == old(buffer)@
            },
    ;

    /// The bytes of `value`, least significant first.
    fn encode_bytes(value: u32) -> (bytes: [u8; 4])
        ensures
            bytes@ == le_bytes(value),
    ;
}

/// A status register that takes writes.
#[derive(Debug, Clone, Copy, PartialEq, Eq)]
pub struct WritableStatusRegister {
    register: StatusRegister,
}

impl WritableStatusRegister {
    #[verifier::type_invariant]
    spec fn inv(self) -> bool {
        self.register.spec_is_writable()
    }

    /// The status register that this is.
    pub closed spec fn spec_register(&self) -> StatusRegister {
        self.register
    }

    /// Takes `register` for writing, if it takes writes.
    pub fn new(register: StatusRegister) -> (writable: Option<Self>)
        ensures
            register.spec_is_writable() ==> writable is Some && writable.unwrap().spec_register()
                == register,
            !register.spec_is_writable() ==> writable is None,
    {
        if register.is_writable() {
            Some(WritableStatusRegister { register })
        } else {
            None
        }
    }

    /// The status register that this is. It takes writes.
    #[verifier::when_used_as_spec(spec_register)]
    pub fn register(&self) -> (register: StatusRegister)
        ensures
            register == self.spec_register(),
            register.spec_is_writable(),
    {
        proof {
            use_type_invariant(self);
        }
        self.register
    }
}

impl Register for ConfigRegister {
    open spec fn spec_read_inst() -> u8 {
        Instruction::ReadCfg.spec_opcode()
    }

    open spec fn spec_address(&self) -> u8 {
        match self {
            ConfigRegister::Id => 0x00,
            ConfigRegister::Mode => 0x01,
            ConfigRegister::BaudRate => 0x02,
            ConfigRegister::HomingOffset => 0x03,
            ConfigRegister::PGainId => 0x04,
            ConfigRegister::IGainId => 0x05,
            ConfigRegister::DGainId => 0x06,
            ConfigRegister::PGainIq => 0x07,
            ConfigRegister::IGainIq => 0x08,
            ConfigRegister::DGainIq => 0x09,
            ConfigRegister::PGainVel => 0x0A,
            ConfigRegister::IGainVel => 0x0B,
            ConfigRegister::DGainVel => 0x0C,
            ConfigRegister::PGainPos => 0x0D,
            ConfigRegister::IGainPos => 0x0E,
            ConfigRegister::DGainPos => 0x0F,
            ConfigRegister::PGainForce => 0x10,
            ConfigRegister::IGainForce => 0x11,
            ConfigRegister::DGainForce => 0x12,
            ConfigRegister::LimitAccMax => 0x13,
            ConfigRegister::LimitIMax => 0x14,
            ConfigRegister::LimitVelMax => 0x15,
            ConfigRegister::LimitPosMin => 0x16,
            ConfigRegister::LimitPosMax => 0x17,
            ConfigRegister::MinVoltage => 0x18,
            ConfigRegister::MaxVoltage => 0x19,
            ConfigRegister::WatchdogTimeout => 0x1A,
            ConfigRegister::TempLimitLow => 0x1B,
            ConfigRegister::TempLimitHigh => 0x1C,
        }
    }

    open spec fn spec_value_type(&self) -> ValueType {
        match self {
            ConfigRegister::Id | ConfigRegister::Mode | ConfigRegister::BaudRate | ConfigRegister::WatchdogTimeout => ValueType::Unsigned,
            _ => ValueType::Float,
        }
    }

    fn read_inst() -> u8 {
        Instruction::ReadCfg.opcode()
    }

    fn address(&self) -> u8 {
        match self {
            ConfigRegister::Id => 0x00,
            ConfigRegister::Mode => 0x01,
            ConfigRegister::BaudRate => 0x02,
            ConfigRegister::HomingOffset => 0x03,
            ConfigRegister::PGainId => 0x04,
            ConfigRegister::IGainId => 0x05,
            ConfigRegister::DGainId => 0x06,
            ConfigRegister::PGainIq => 0x07,
            ConfigRegister::IGainIq => 0x08,
            ConfigRegister::DGainIq => 0x09,
            ConfigRegister::PGainVel => 0x0A,
            ConfigRegister::IGainVel => 0x0B,
            ConfigRegister::DGainVel => 0x0C,
            ConfigRegister::PGainPos => 0x0D,
            ConfigRegister::IGainPos => 0x0E,
            ConfigRegister::DGainPos => 0x0F,
            ConfigRegister::PGainForce => 0x10,
            ConfigRegister::IGainForce => 0x11,
            ConfigRegister::DGainForce => 0x12,
            ConfigRegister::LimitAccMax => 0x13,
            ConfigRegister::LimitIMax => 0x14,
            ConfigRegister::LimitVelMax => 0x15,
            ConfigRegister::LimitPosMin => 0x16,
            ConfigRegister::LimitPosMax => 0x17,
            ConfigRegister::MinVoltage => 0x18,
            ConfigRegister::MaxVoltage => 0x19,
            ConfigRegister::WatchdogTimeout => 0x1A,
            ConfigRegister::TempLimitLow => 0x1B,
            ConfigRegister::TempLimitHigh => 0x1C,
        }
    }

    fn value_type(&self) -> ValueType {
        match self {
            ConfigRegister::Id | ConfigRegister::Mode | ConfigRegister::BaudRate | ConfigRegister::WatchdogTimeout => ValueType::Unsigned,
            _ => ValueType::Float,
        }
    }

    fn decode(buffer: &[u8]) -> Result<u32, InvalidMessage> {
        decode_value(buffer)
    }
}

impl WritableRegister for ConfigRegister {
    open spec fn spec_write_inst() -> u8 {
        Instruction::WriteCfg.spec_opcode()
    }

    fn write_inst() -> u8 {
        Instruction::WriteCfg.opcode()
    }

    fn encoded_size() -> u8 {
        ENCODED_SIZE
    }

    fn encode(value: u32, buffer: &mut [u8]) -> Result<(), BufferTooSmallError> {
        encode_value(value, buffer)
    }

    fn encode_bytes(value: u32) -> [u8; 4] {
        value_to_bytes(value)
    }
}

impl Register for StatusRegister {
    open spec fn spec_read_inst() -> u8 {
        Instruction::ReadStat.spec_opcode()
    }

    open spec fn spec_address(&self) -> u8 {
        match self {
            StatusRegister::TorqueEnable => 0x00,
            StatusRegister::HomingComplete => 0x01,
            StatusRegister::GoalId => 0x02,
            StatusRegister::GoalIq => 0x03,
            StatusRegister::GoalVel => 0x04,
            StatusRegister::GoalPos => 0x05,
            StatusRegister::PresentId => 0x06,
            StatusRegister::PresentIq => 0x07,
            StatusRegister::PresentVel => 0x08,
            StatusRegister::PresentPos => 0x09,
            StatusRegister::InputVoltage => 0x0A,
            StatusRegister::WindingTemp => 0x0B,
            StatusRegister::PowerstageTemp => 0x0C,
            StatusRegister::IcTemp => 0x0D,
            StatusRegister::ErrorStatus => 0x0E,
            StatusRegister::WarningStatus => 0x0F,
        }
    }

    open spec fn spec_value_type(&self) -> ValueType {
        match self {
            StatusRegister::TorqueEnable | StatusRegister::WarningStatus => ValueType::Unsigned,
            _ => ValueType::Float,
        }
    }

    fn read_inst() -> u8 {
        Instruction::ReadStat.opcode()
    }

    fn address(&self) -> u8 {
        match self {
            StatusRegister::TorqueEnable => 0x00,
            StatusRegister::HomingComplete => 0x01,
            StatusRegister::GoalId => 0x02,
            StatusRegister::GoalIq => 0x03,
            StatusRegister::GoalVel => 0x04,
            StatusRegister::GoalPos => 0x05,
            StatusRegister::PresentId => 0x06,
            StatusRegister::PresentIq => 0x07,
            StatusRegister::PresentVel => 0x08,
            StatusRegister::PresentPos => 0x09,
            StatusRegister::InputVoltage => 0x0A,
            StatusRegister::WindingTemp => 0x0B,
            StatusRegister::PowerstageTemp => 0x0C,
            StatusRegister::IcTemp => 0x0D,
            StatusRegister::ErrorStatus => 0x0E,
            StatusRegister::WarningStatus => 0x0F,
        }
    }

    fn value_type(&self) -> ValueType {
        match self {
            StatusRegister::TorqueEnable | StatusRegister::WarningStatus => ValueType::Unsigned,
            _ => ValueType::Float,
        }
    }

    fn decode(buffer: &[u8]) -> Result<u32, InvalidMessage> {
        decode_value(buffer)
    }
}
impl Register for WritableStatusRegister {
    open spec fn spec_read_inst() -> u8 {
        Instruction::ReadStat.spec_opcode()
    }

    open spec fn spec_address(&self) -> u8 {
        self.spec_register().spec_address()
    }

    open spec fn spec_value_type(&self) -> ValueType {
        self.spec_register().spec_value_type()
    }

    fn read_inst() -> u8 {
        Instruction::ReadStat.opcode()
    }

    fn address(&self) -> u8 {
        self.register().address()
    }

    fn value_type(&self) -> ValueType {
        self.register().value_type()
    }

    fn decode(buffer: &[u8]) -> Result<u32, InvalidMessage> {
        decode_value(buffer)
    }
}

impl WritableRegister for WritableStatusRegister {
    open spec fn spec_write_inst() -> u8 {
        Instruction::WriteStat.spec_opcode()
    }

    fn write_inst() -> u8 {
        Instruction::WriteStat.opcode()
    }

    fn encoded_size() -> u8 {
        ENCODED_SIZE
    }

    fn encode(value: u32, buffer: &mut [u8]) -> Result<(), BufferTooSmallError> {
        encode_value(value, buffer)
    }

    fn encode_bytes(value: u32) -> [u8; 4] {
        value_to_bytes(value)
    }
}

} // verus!
