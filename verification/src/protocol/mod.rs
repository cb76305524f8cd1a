//! The wire-level vocabulary: opcodes, registers, status flags and responses.

pub mod motor_error;
pub mod registers;
pub mod response;

pub use motor_error::ErrorFlags;
pub use motor_error::{ERROR_FLAGS, WARNING_FLAGS};
pub use registers::{Register, ValueType, WritableRegister, WritableStatusRegister};
pub use response::Response;

use vstd::prelude::*;

verus! {

/// The index of the packet id in a packet.
pub const PACKET_ID: usize = 2;

/// The index of the length byte in a packet.
pub const PACKET_LEN: usize = 3;

/// The index of the instruction in a request, and of the status byte in a
/// response.
pub const PACKET_ERROR: usize = 4;

/// The instructions of the protocol. `BulkComm` has an opcode and nothing
/// else: the bus does not send it.
#[derive(Debug, Clone, Copy, PartialEq, Eq, Structural)]
#[allow(missing_docs)]
pub enum Instruction {
    Ping,
    ReadStat,
    WriteStat,
    ReadCfg,
    WriteCfg,
    SaveCfg,
    BulkComm,
}

impl Instruction {
    /// The byte that stands for the instruction in a packet.
    pub open spec fn spec_opcode(&self) -> u8 {
        match self {
            Instruction::Ping => 0x01,
            Instruction::ReadStat => 0x02,
            Instruction::WriteStat => 0x03,
            Instruction::ReadCfg => 0x04,
            Instruction::WriteCfg => 0x05,
            Instruction::SaveCfg => 0x06,
            Instruction::BulkComm => 0x12,
        }
    }

    /// The byte that stands for the instruction in a packet.
    #[verifier::when_used_as_spec(spec_opcode)]
    pub fn opcode(&self) -> (opcode: u8)
        ensures
            opcode == self.spec_opcode(),
    {
        match self {
            Instruction::Ping => 0x01,
            Instruction::ReadStat => 0x02,
            Instruction::WriteStat => 0x03,
            Instruction::ReadCfg => 0x04,
            Instruction::WriteCfg => 0x05,
            Instruction::SaveCfg => 0x06,
            Instruction::BulkComm => 0x12,
        }
    }
}

/// The registers that hold the configuration of a motor. They keep their
/// values over a power cycle once the configuration is saved.
#[derive(Debug, Clone, Copy, PartialEq, Eq, PartialOrd, Ord, Structural)]
pub enum ConfigRegister {
    /// The id of the motor on the bus. Holds an unsigned integer; read and write.
    Id,
    /// The control mode. Holds an unsigned integer; read and write.
    Mode,
    /// The baud rate of the serial line. Holds an unsigned integer; read and write.
    BaudRate,
    /// The homing offset. Holds a float; read and write.
    HomingOffset,
    /// The proportional gain of the direct-current loop. Holds a float; read and write.
    PGainId,
    /// The integral gain of the direct-current loop. Holds a float; read and write.
    IGainId,
    /// The derivative gain of the direct-current loop. Holds a float; read and write.
    DGainId,
    /// The proportional gain of the quadrature-current loop. Holds a float; read and write.
    PGainIq,
    /// The integral gain of the quadrature-current loop. Holds a float; read and write.
    IGainIq,
    /// The derivative gain of the quadrature-current loop. Holds a float; read and write.
    DGainIq,
    /// The proportional gain of the velocity loop. Holds a float; read and write.
    PGainVel,
    /// The integral gain of the velocity loop. Holds a float; read and write.
    IGainVel,
    /// The derivative gain of the velocity loop. Holds a float; read and write.
    DGainVel,
    /// The proportional gain of the position loop. Holds a float; read and write.
    PGainPos,
    /// The integral gain of the position loop. Holds a float; read and write.
    IGainPos,
    /// The derivative gain of the position loop. Holds a float; read and write.
    DGainPos,
    /// The proportional gain of the force loop. Holds a float; read and write.
    PGainForce,
    /// The integral gain of the force loop. Holds a float; read and write.
    IGainForce,
    /// The derivative gain of the force loop. Holds a float; read and write.
    DGainForce,
    /// The largest acceleration. Holds a float; read and write.
    LimitAccMax,
    /// The largest current. Holds a float; read and write.
    LimitIMax,
    /// The largest velocity. Holds a float; read and write.
    LimitVelMax,
    /// The lowest position. Holds a float; read and write.
    LimitPosMin,
    /// The highest position. Holds a float; read and write.
    LimitPosMax,
    /// The lowest input voltage. Holds a float; read and write.
    MinVoltage,
    /// The highest input voltage. Holds a float; read and write.
    MaxVoltage,
    /// The timeout of the watchdog. Holds an unsigned integer; read and write.
    WatchdogTimeout,
    /// The temperature from which the motor limits its power. Holds a float; read and write.
    TempLimitLow,
    /// The temperature at which the motor shuts down. Holds a float; read and write.
    TempLimitHigh,
}

impl ConfigRegister {
    /// The name of the register.
    pub open spec fn spec_name(&self) -> Seq<char> {
        match self {
            ConfigRegister::Id => "Id"@,
            ConfigRegister::Mode => "Mode"@,
            ConfigRegister::BaudRate => "BaudRate"@,
            ConfigRegister::HomingOffset => "HomingOffset"@,
            ConfigRegister::PGainId => "PGainId"@,
            ConfigRegister::IGainId => "IGainId"@,
            ConfigRegister::DGainId => "DGainId"@,
            ConfigRegister::PGainIq => "PGainIq"@,
            ConfigRegister::IGainIq => "IGainIq"@,
            ConfigRegister::DGainIq => "DGainIq"@,
            ConfigRegister::PGainVel => "PGainVel"@,
            ConfigRegister::IGainVel => "IGainVel"@,
            ConfigRegister::DGainVel => "DGainVel"@,
            ConfigRegister::PGainPos => "PGainPos"@,
            ConfigRegister::IGainPos => "IGainPos"@,
            ConfigRegister::DGainPos => "DGainPos"@,
            ConfigRegister::PGainForce => "PGainForce"@,
            ConfigRegister::IGainForce => "IGainForce"@,
            ConfigRegister::DGainForce => "DGainForce"@,
            ConfigRegister::LimitAccMax => "LimitAccMax"@,
            ConfigRegister::LimitIMax => "LimitIMax"@,
            ConfigRegister::LimitVelMax => "LimitVelMax"@,
            ConfigRegister::LimitPosMin => "LimitPosMin"@,
            ConfigRegister::LimitPosMax => "LimitPosMax"@,
            ConfigRegister::MinVoltage => "MinVoltage"@,
            ConfigRegister::MaxVoltage => "MaxVoltage"@,
            ConfigRegister::WatchdogTimeout => "WatchdogTimeout"@,
            ConfigRegister::TempLimitLow => "TempLimitLow"@,
            ConfigRegister::TempLimitHigh => "TempLimitHigh"@,
        }
    }

    /// The register at `address`, if there is one.
    pub fn from_address(address: u8) -> (register: Option<Self>)
        ensures
            address < 29 ==> register is Some && register.unwrap().spec_address() == address,
            address >= 29 ==> register is None,
    {
        match address {
            0x00 => Some(ConfigRegister::Id),
            0x01 => Some(ConfigRegister::Mode),
            0x02 => Some(ConfigRegister::BaudRate),
            0x03 => Some(ConfigRegister::HomingOffset),
            0x04 => Some(ConfigRegister::PGainId),
            0x05 => Some(ConfigRegister::IGainId),
            0x06 => Some(ConfigRegister::DGainId),
            0x07 => Some(ConfigRegister::PGainIq),
            0x08 => Some(ConfigRegister::IGainIq),
            0x09 => Some(ConfigRegister::DGainIq),
            0x0A => Some(ConfigRegister::PGainVel),
            0x0B => Some(ConfigRegister::IGainVel),
            0x0C => Some(ConfigRegister::DGainVel),
            0x0D => Some(ConfigRegister::PGainPos),
            0x0E => Some(ConfigRegister::IGainPos),
            0x0F => Some(ConfigRegister::DGainPos),
            0x10 => Some(ConfigRegister::PGainForce),
            0x11 => Some(ConfigRegister::IGainForce),
            0x12 => Some(ConfigRegister::DGainForce),
            0x13 => Some(ConfigRegister::LimitAccMax),
            0x14 => Some(ConfigRegister::LimitIMax),
            0x15 => Some(ConfigRegister::LimitVelMax),
            0x16 => Some(ConfigRegister::LimitPosMin),
            0x17 => Some(ConfigRegister::LimitPosMax),
            0x18 => Some(ConfigRegister::MinVoltage),
            0x19 => Some(ConfigRegister::MaxVoltage),
            0x1A => Some(ConfigRegister::WatchdogTimeout),
            0x1B => Some(ConfigRegister::TempLimitLow),
            0x1C => Some(ConfigRegister::TempLimitHigh),
            _ => None,
        }
    }

    /// The name of the register.
    pub fn name(&self) -> (name: &'static str)
        ensures
            name@ == self.spec_name(),
    {
        match self {
            ConfigRegister::Id => "Id",
            ConfigRegister::Mode => "Mode",
            ConfigRegister::BaudRate => "BaudRate",
            ConfigRegister::HomingOffset => "HomingOffset",
            ConfigRegister::PGainId => "PGainId",
            ConfigRegister::IGainId => "IGainId",
            ConfigRegister::DGainId => "DGainId",
            ConfigRegister::PGainIq => "PGainIq",
            ConfigRegister::IGainIq => "IGainIq",
            ConfigRegister::DGainIq => "DGainIq",
            ConfigRegister::PGainVel => "PGainVel",
            ConfigRegister::IGainVel => "IGainVel",
            ConfigRegister::DGainVel => "DGainVel",
            ConfigRegister::PGainPos => "PGainPos",
            ConfigRegister::IGainPos => "IGainPos",
            ConfigRegister::DGainPos => "DGainPos",
            ConfigRegister::PGainForce => "PGainForce",
            ConfigRegister::IGainForce => "IGainForce",
            ConfigRegister::DGainForce => "DGainForce",
            ConfigRegister::LimitAccMax => "LimitAccMax",
            ConfigRegister::LimitIMax => "LimitIMax",
            ConfigRegister::LimitVelMax => "LimitVelMax",
            ConfigRegister::LimitPosMin => "LimitPosMin",
            ConfigRegister::LimitPosMax => "LimitPosMax",
            ConfigRegister::MinVoltage => "MinVoltage",
            ConfigRegister::MaxVoltage => "MaxVoltage",
            ConfigRegister::WatchdogTimeout => "WatchdogTimeout",
            ConfigRegister::TempLimitLow => "TempLimitLow",
            ConfigRegister::TempLimitHigh => "TempLimitHigh",
        }
    }
}

/// The registers that hold the state of a motor. They are not kept over a
/// power cycle.
#[derive(Debug, Clone, Copy, PartialEq, Eq, PartialOrd, Ord, Structural)]
pub enum StatusRegister {
    /// Whether the output is enabled. Holds an unsigned integer; read and write.
    TorqueEnable,
    /// Whether homing is complete. Holds a float; read and write.
    HomingComplete,
    /// The goal of the direct current. Holds a float; read and write.
    GoalId,
    /// The goal of the quadrature current. Holds a float; read and write.
    GoalIq,
    /// The goal velocity. Holds a float; read and write.
    GoalVel,
    /// The goal position. Holds a float; read and write.
    GoalPos,
    /// The present direct current. Holds a float; read only.
    PresentId,
    /// The present quadrature current. Holds a float; read only.
    PresentIq,
    /// The present velocity. Holds a float; read only.
    PresentVel,
    /// The present position. Holds a float; read only.
    PresentPos,
    /// The input voltage. Holds a float; read only.
    InputVoltage,
    /// The temperature of the winding. Holds a float; read only.
    WindingTemp,
    /// The temperature of the power stage. Holds a float; read only.
    PowerstageTemp,
    /// The temperature of the controller. Holds a float; read only.
    IcTemp,
    /// The error status. Holds a float; read only.
    ErrorStatus,
    /// The warning status. Holds an unsigned integer; read only.
    WarningStatus,
}

impl StatusRegister {
    /// The name of the register.
    pub open spec fn spec_name(&self) -> Seq<char> {
        match self {
            StatusRegister::TorqueEnable => "TorqueEnable"@,
            StatusRegister::HomingComplete => "HomingComplete"@,
            StatusRegister::GoalId => "GoalId"@,
            StatusRegister::GoalIq => "GoalIq"@,
            StatusRegister::GoalVel => "GoalVel"@,
            StatusRegister::GoalPos => "GoalPos"@,
            StatusRegister::PresentId => "PresentId"@,
            StatusRegister::PresentIq => "PresentIq"@,
            StatusRegister::PresentVel => "PresentVel"@,
            StatusRegister::PresentPos => "PresentPos"@,
            StatusRegister::InputVoltage => "InputVoltage"@,
            StatusRegister::WindingTemp => "WindingTemp"@,
            StatusRegister::PowerstageTemp => "PowerstageTemp"@,
            StatusRegister::IcTemp => "IcTemp"@,
            StatusRegister::ErrorStatus => "ErrorStatus"@,
            StatusRegister::WarningStatus => "WarningStatus"@,
        }
    }

    /// The register at `address`, if there is one.
    pub fn from_address(address: u8) -> (register: Option<Self>)
        ensures
            address < 16 ==> register is Some && register.unwrap().spec_address() == address,
            address >= 16 ==> register is None,
    {
        match address {
            0x00 => Some(StatusRegister::TorqueEnable),
            0x01 => Some(StatusRegister::HomingComplete),
            0x02 => Some(StatusRegister::GoalId),
            0x03 => Some(StatusRegister::GoalIq),
            0x04 => Some(StatusRegister::GoalVel),
            0x05 => Some(StatusRegister::GoalPos),
            0x06 => Some(StatusRegister::PresentId),
            0x07 => Some(StatusRegister::PresentIq),
            0x08 => Some(StatusRegister::PresentVel),
            0x09 => Some(StatusRegister::PresentPos),
            0x0A => Some(StatusRegister::InputVoltage),
            0x0B => Some(StatusRegister::WindingTemp),
            0x0C => Some(StatusRegister::PowerstageTemp),
            0x0D => Some(StatusRegister::IcTemp),
            0x0E => Some(StatusRegister::ErrorStatus),
            0x0F => Some(StatusRegister::WarningStatus),
            _ => None,
        }
    }

    /// The name of the register.
    pub fn name(&self) -> (name: &'static str)
        ensures
            name@ == self.spec_name(),
    {
        match self {
            StatusRegister::TorqueEnable => "TorqueEnable",
            StatusRegister::HomingComplete => "HomingComplete",
            StatusRegister::GoalId => "GoalId",
            StatusRegister::GoalIq => "GoalIq",
            StatusRegister::GoalVel => "GoalVel",
            StatusRegister::GoalPos => "GoalPos",
            StatusRegister::PresentId => "PresentId",
            StatusRegister::PresentIq => "PresentIq",
            StatusRegister::PresentVel => "PresentVel",
            StatusRegister::PresentPos => "PresentPos",
            StatusRegister::InputVoltage => "InputVoltage",
            StatusRegister::WindingTemp => "WindingTemp",
            StatusRegister::PowerstageTemp => "PowerstageTemp",
            StatusRegister::IcTemp => "IcTemp",
            StatusRegister::ErrorStatus => "ErrorStatus",
            StatusRegister::WarningStatus => "WarningStatus",
        }
    }

    /// Whether the register takes writes: the first six do.
    pub open spec fn spec_is_writable(&self) -> bool {
        self.spec_address() <= 0x05
    }

    /// Whether the register takes writes.
    #[verifier::when_used_as_spec(spec_is_writable)]
    pub fn is_writable(&self) -> (writable: bool)
        ensures
            writable == self.spec_is_writable(),
    {
        match self {
            StatusRegister::TorqueEnable | StatusRegister::HomingComplete | StatusRegister::GoalId | StatusRegister::GoalIq | StatusRegister::GoalVel | StatusRegister::GoalPos => true,
            _ => false,
        }
    }
}

} // verus!
