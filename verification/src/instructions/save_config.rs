//! Save config: has a motor keep its configuration over a power cycle.

use crate::bus::Bus;
use crate::error::BufferTooSmallError;
use crate::framing::packet_bytes;
use crate::protocol::Instruction;
use vstd::prelude::*;

verus! {

impl Bus {
    /// Encodes the instruction that has the motor `motor_id` store the
    /// present values of its config registers, so that they are kept over a
    /// power cycle. The instruction has no parameters, and every write buffer
    /// can hold the packet.
    pub fn save_config(&mut self, motor_id: u8) -> (result: Result<&[u8], BufferTooSmallError>)
        requires
            old(self).wf(),
        ensures
            final(self).wf(),
            result is Ok,
            result.unwrap()@ == packet_bytes(
                motor_id,
                Instruction::SaveCfg.spec_opcode(),
                Seq::empty(),
            ),
            final(self)@ == old(self)@.after_write(result.unwrap()@),
    {
        proof {
            self.lemma_view_wf();
        }
        let encode = |region: &mut [u8]| -> (outcome: Result<(), BufferTooSmallError>)
            ensures
                final(region)@ == old(region)@,
                outcome == Ok::<(), BufferTooSmallError>(()),
            { Ok(()) };
        let result = self.write_packet(motor_id, Instruction::SaveCfg.opcode(), 0, encode);
        proof {
            assert(old(self)@.write.subrange(5, 5) =~= Seq::empty());
        }
        result
    }
}

} // verus!
