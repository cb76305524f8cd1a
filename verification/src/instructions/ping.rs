//! Ping: asks a motor whether it is there.

use crate::bus::Bus;
use crate::error::BufferTooSmallError;
use crate::framing::{packet_bytes, Transfer};
use crate::protocol::Instruction;
use vstd::prelude::*;

verus! {

/// The number of bytes after the status byte in the response to a ping.
pub const PING_RESPONSE_PARAMETERS: u8 = 4;

impl Bus {
    /// Encodes a ping of the motor `motor_id`: an instruction without
    /// parameters. The response holds four bytes after the status byte. Every
    /// write buffer can hold the packet.
    pub fn ping(&mut self, motor_id: u8) -> (result: Result<Transfer<'_>, BufferTooSmallError>)
        requires
            old(self).wf(),
        ensures
            final(self).wf(),
            result is Ok,
            result.unwrap().packet@ == packet_bytes(
                motor_id,
                Instruction::Ping.spec_opcode(),
                Seq::empty(),
            ),
            result.unwrap().response_parameters == PING_RESPONSE_PARAMETERS,
            final(self)@ == old(self)@.after_write(result.unwrap().packet@),
    {
        proof {
            self.lemma_view_wf();
        }
        let encode = |region: &mut [u8]| -> (outcome: Result<(), BufferTooSmallError>)
            ensures
                final(region)@ == old(region)@,
                outcome == Ok::<(), BufferTooSmallError>(()),
            { Ok(()) };
        let result = self.transfer_single(
            motor_id,
            Instruction::Ping.opcode(),
            0,
            PING_RESPONSE_PARAMETERS,
            encode,
        );
        proof {
            assert(old(self)@.write.subrange(5, 5) =~= Seq::empty());
        }
        result
    }
}

} // verus!
