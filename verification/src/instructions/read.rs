//! Read: asks a motor for the value of a register.

use crate::bus::Bus;
use crate::error::{BufferTooSmallError, InvalidMessage, ReadError};
use crate::framing::{packet_bytes, Transfer};
use crate::protocol::registers::{decoded, Register};
use crate::protocol::response::{response_of, Response};
use crate::protocol::{ConfigRegister, Instruction, StatusRegister};
use vstd::prelude::*;

verus! {

/// The number of bytes after the status byte in the response to a read: the
/// bytes of the value and one more.
pub const READ_RESPONSE_PARAMETERS: u8 = 5;

/// What the packet of a response to the read of a register amounts to: the
/// response with its data decoded. A response whose data is not exactly the
/// four bytes of a value is an invalid message.
pub open spec fn value_response_of<E>(packet: Seq<u8>, motor_id: u8) -> Result<
    Response<u32>,
    ReadError<E>,
> {
    match response_of::<E>(packet, motor_id) {
        Err(e) => Err(e),
        Ok(response) => match decoded(response.data) {
            Err(e) => Err(ReadError::InvalidMessage(e)),
            Ok(value) => Ok(
                Response { motor_id: response.motor_id, warning: response.warning, data: value },
            ),
        },
    }
}

impl Bus {
    /// Encodes a read of the register at `addr` with the instruction
    /// `instruction_id`: the address is the only parameter. Every write
    /// buffer can hold the packet.
    pub fn read_raw(&mut self, motor_id: u8, instruction_id: u8, addr: u8) -> (result: Result<
        Transfer<'_>,
        BufferTooSmallError,
    >)
        requires
            old(self).wf(),
        ensures
            final(self).wf(),
            result is Ok,
            result.unwrap().packet@ == packet_bytes(motor_id, instruction_id, seq![addr]),
            result.unwrap().response_parameters == READ_RESPONSE_PARAMETERS,
            final(self)@ == old(self)@.after_write(result.unwrap().packet@),
    {
        proof {
            self.lemma_view_wf();
        }
        let encode = |region: &mut [u8]| -> (outcome: Result<(), BufferTooSmallError>)
            requires
                old(region)@.len() == 1,
            ensures
                final(region)@.len() == old(region)@.len(),
                old(region)@.len() == 1 ==> final(region)@ == seq![addr],
                outcome == Ok::<(), BufferTooSmallError>(()),
            {
                region[0] = addr;
                proof {
                    assert(region@ =~= seq![addr]);
                }
                Ok(())
            };
        self.transfer_single(motor_id, instruction_id, 1, READ_RESPONSE_PARAMETERS, encode)
    }

    /// Encodes a read of a config register.
    pub fn read_config(&mut self, motor_id: u8, config_register: ConfigRegister) -> (result:
        Result<Transfer<'_>, BufferTooSmallError>)
        requires
            old(self).wf(),
        ensures
            final(self).wf(),
            result is Ok,
            result.unwrap().packet@ == packet_bytes(
                motor_id,
                Instruction::ReadCfg.spec_opcode(),
                seq![config_register.spec_address()],
            ),
            result.unwrap().response_parameters == READ_RESPONSE_PARAMETERS,
            final(self)@ == old(self)@.after_write(result.unwrap().packet@),
    {
        self.read_raw(motor_id, ConfigRegister::read_inst(), config_register.address())
    }

    /// Encodes a read of a status register.
    pub fn read_status(&mut self, motor_id: u8, status_register: StatusRegister) -> (result:
        Result<Transfer<'_>, BufferTooSmallError>)
        requires
            old(self).wf(),
        ensures
            final(self).wf(),
            result is Ok,
            result.unwrap().packet@ == packet_bytes(
                motor_id,
                Instruction::ReadStat.spec_opcode(),
                seq![status_register.spec_address()],
            ),
            result.unwrap().response_parameters == READ_RESPONSE_PARAMETERS,
            final(self)@ == old(self)@.after_write(result.unwrap().packet@),
    {
        self.read_raw(motor_id, StatusRegister::read_inst(), status_register.address())
    }

    /// Encodes a read of `register`, with the instruction of its class.
    pub fn read<R: Register>(&mut self, motor_id: u8, register: &R) -> (result: Result<
        Transfer<'_>,
        BufferTooSmallError,
    >)
        requires
            old(self).wf(),
        ensures
            final(self).wf(),
            result is Ok,
            result.unwrap().packet@ == packet_bytes(
                motor_id,
                R::spec_read_inst(),
                seq![register.spec_address()],
            ),
            result.unwrap().response_parameters == READ_RESPONSE_PARAMETERS,
            final(self)@ == old(self)@.after_write(result.unwrap().packet@),
    {
        self.read_raw(motor_id, R::read_inst(), register.address())
    }

    /// The value in the response that the last pass handed out, checked
    /// against the motor `motor_id` that was asked and decoded as a register
    /// of the type `R`.
    pub fn read_value<R: Register, E>(&self, motor_id: u8) -> (result: Result<
        Response<u32>,
        ReadError<E>,
    >)
        requires
            self.wf(),
        ensures
            result == value_response_of::<E>(self@.last_packet(), motor_id),
    {
        let response = match self.read_response::<E>(motor_id) {
            Ok(response) => response,
            Err(e) => {
                return Err(e);
            },
        };
        match R::decode(response.data) {
            Ok(value) => Ok(
                Response { motor_id: response.motor_id, warning: response.warning, data: value },
            ),
            Err(e) => Err(ReadError::InvalidMessage(e)),
        }
    }
}

} // verus!
