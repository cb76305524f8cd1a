//! Write: sets a register of a motor.

use crate::bus::Bus;
use crate::error::BufferTooSmallError;
use crate::framing::MIN_PACKET_SIZE;
use crate::protocol::registers::{le_bytes, WritableRegister};
use crate::protocol::{ConfigRegister, Instruction, Register, StatusRegister};
use vstd::prelude::*;

verus! {

impl Bus {
    /// Encodes a write of `data` to the register at the address `register`
    /// with the instruction `instruction_id`: the parameters are the address
    /// and then the data.
    pub fn write_raw(&mut self, motor_id: u8, instruction_id: u8, register: u8, data: &[u8]) -> (result:
        Result<&[u8], BufferTooSmallError>)
        requires
            old(self).wf(),
            data@.len() + 1 + MIN_PACKET_SIZE <= usize::MAX,
        ensures
            final(self).wf(),
            match old(self)@.encoded(motor_id, instruction_id, seq![register] + data@) {
                Ok(packet) => {
                    &&& result is Ok
                    &&& result.unwrap()@ == packet
                    &&& final(self)@ == old(self)@.after_write(packet)
                },
                Err(e) => {
                    &&& result == Err::<&[u8], BufferTooSmallError>(e)
                    &&& final(self)@ == old(self)@
                },
            },
    {
        let encode = |region: &mut [u8]| -> (outcome: Result<(), BufferTooSmallError>)
            requires
                old(region)@.len() == data@.len() + 1,
            ensures
                final(region)@.len() == old(region)@.len(),
                old(region)@.len() == data@.len() + 1 ==> final(region)@ == seq![register] + data@,
                outcome == Ok::<(), BufferTooSmallError>(()),
            {
                region[0] = register;
                let mut i: usize = 0;
                while i < data.len()
                    invariant
                        i <= data@.len(),
                        region@.len() == data@.len() + 1,
                        region@[0] == register,
                        forall|j: int| 0 <= j < i ==> region@[1 + j] == data@[j],
                    decreases data@.len() - i,
                {
                    region[1 + i] = data[i];
                    i += 1;
                }
                proof {
                    assert(region@ =~= seq![register] + data@);
                }
                Ok(())
            };
        self.write_packet(motor_id, instruction_id, data.len() + 1, encode)
    }

    /// Encodes a write of `data`, the bytes of a value, to a config register.
    pub fn write_config(&mut self, motor_id: u8, config_register: ConfigRegister, data: &[u8]) -> (result:
        Result<&[u8], BufferTooSmallError>)
        requires
            old(self).wf(),
            data@.len() + 1 + MIN_PACKET_SIZE <= usize::MAX,
        ensures
            final(self).wf(),
            match old(self)@.encoded(
                motor_id,
                Instruction::WriteCfg.spec_opcode(),
                seq![config_register.spec_address()] + data@,
            ) {
                Ok(packet) => {
                    &&& result is Ok
                    &&& result.unwrap()@ == packet
                    &&& final(self)@ == old(self)@.after_write(packet)
                },
                Err(e) => {
                    &&& result == Err::<&[u8], BufferTooSmallError>(e)
                    &&& final(self)@ == old(self)@
                },
            },
    {
        self.write_raw(motor_id, Instruction::WriteCfg.opcode(), config_register.address(), data)
    }

    /// Encodes a write of `data`, the bytes of a value, to a status register.
    pub fn write_status(&mut self, motor_id: u8, status_register: StatusRegister, data: &[u8]) -> (result:
        Result<&[u8], BufferTooSmallError>)
        requires
            old(self).wf(),
            data@.len() + 1 + MIN_PACKET_SIZE <= usize::MAX,
        ensures
            final(self).wf(),
            match old(self)@.encoded(
                motor_id,
                Instruction::WriteStat.spec_opcode(),
                seq![status_register.spec_address()] + data@,
            ) {
                Ok(packet) => {
                    &&& result is Ok
                    &&& result.unwrap()@ == packet
                    &&& final(self)@ == old(self)@.after_write(packet)
                },
                Err(e) => {
                    &&& result == Err::<&[u8], BufferTooSmallError>(e)
                    &&& final(self)@ == old(self)@
                },
            },
    {
        self.write_raw(motor_id, Instruction::WriteStat.opcode(), status_register.address(), data)
    }

    /// Encodes a write of `value` to `register`, with the instruction of its
    /// class: the parameters are the address and the four bytes of the value.
    pub fn write<R: WritableRegister>(&mut self, motor_id: u8, register: &R, value: u32) -> (result:
        Result<&[u8], BufferTooSmallError>)
        requires
            old(self).wf(),
        ensures
            final(self).wf(),
            match old(self)@.encoded(
                motor_id,
                R::spec_write_inst(),
                seq![register.spec_address()] + le_bytes(value),
            ) {
                Ok(packet) => {
                    &&& result is Ok
                    &&& result.unwrap()@ == packet
                    &&& final(self)@ == old(self)@.after_write(packet)
                },
                Err(e) => {
                    &&& result == Err::<&[u8], BufferTooSmallError>(e)
                    &&& final(self)@ == old(self)@
                },
            },
    {
        let bytes = R::encode_bytes(value);
        self.write_raw(motor_id, R::write_inst(), register.address(), bytes.as_slice())
    }
}

} // verus!
