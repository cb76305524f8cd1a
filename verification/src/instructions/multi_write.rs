//! Multi write: sets several registers of one motor with one instruction.

use crate::bus::Bus;
use crate::error::BufferTooSmallError;
use crate::framing::MIN_PACKET_SIZE;
use crate::protocol::registers::{le_bytes, WritableRegister};
use vstd::prelude::*;

verus! {

/// The number of bytes that one entry of a multi write takes: the address
/// and the four bytes of the value.
pub const ENTRY_SIZE: usize = 5;

/// One entry of a multi write: a register and the bytes of its new value.
#[derive(Debug)]
pub struct MultiWrite<R> {
    address: R,
    data: [u8; 4],
}

impl<R: WritableRegister> MultiWrite<R> {
    /// The register that the entry writes.
    pub closed spec fn register(&self) -> R {
        self.address
    }

    /// The bytes of the value that the entry writes.
    pub closed spec fn data(&self) -> Seq<u8> {
        self.data@
    }

    /// The parameters that the entry adds to the packet: the address, then
    /// the bytes of the value.
    pub open spec fn params(&self) -> Seq<u8> {
        seq![self.register().spec_address()] + self.data()
    }

    /// An entry that writes `value` to `register`.
    pub fn new(register: R, value: u32) -> (entry: Self)
        ensures
            entry.register() == register,
            entry.data() == le_bytes(value),
    {
        MultiWrite { address: register, data: R::encode_bytes(value) }
    }
}

/// The parameters of a multi write: those of its entries, one after the other.
pub open spec fn multi_write_params<R: WritableRegister>(entries: Seq<MultiWrite<R>>) -> Seq<u8>
    decreases entries.len(),
{
    if entries.len() == 0 {
        Seq::empty()
    } else {
        multi_write_params(entries.drop_last()) + entries.last().params()
    }
}

/// Each entry adds five bytes.
pub proof fn lemma_multi_write_len<R: WritableRegister>(entries: Seq<MultiWrite<R>>)
    ensures
        multi_write_params(entries).len() == entries.len() * ENTRY_SIZE,
    decreases entries.len(),
{
    if entries.len() > 0 {
        lemma_multi_write_len(entries.drop_last());
    }
}

impl Bus {
    /// Encodes one instruction that writes every entry of `data` to the motor
    /// `motor_id`, with the write instruction of the registers' class. The
    /// motor gets all the values at once.
    pub fn multi_write<R: WritableRegister>(&mut self, motor_id: u8, data: &[MultiWrite<R>]) -> (result:
        Result<&[u8], BufferTooSmallError>)
        requires
            old(self).wf(),
            data@.len() * ENTRY_SIZE + MIN_PACKET_SIZE <= usize::MAX,
        ensures
            final(self).wf(),
            multi_write_params(data@).len() == data@.len() * ENTRY_SIZE,
            match old(self)@.encoded(motor_id, R::spec_write_inst(), multi_write_params(data@)) {
                Ok(packet) => {
                    &&& result is Ok
                    &&& result.unwrap()@ == packet
                    &&& final(self)@ == old(self)@.after_write(packet)
                },
                Err(e) => {
                    &&& result == Err::<&[u8], BufferTooSmallError>(e)
                    &&& final(self)@ == old(self)@
                },
            },
    {
        let parameter_count = data.len() * ENTRY_SIZE;
        proof {
            lemma_multi_write_len(data@);
        }
        let encode = |region: &mut [u8]| -> (outcome: Result<(), BufferTooSmallError>)
            requires
                old(region)@.len() == data@.len() * ENTRY_SIZE,
            ensures
                final(region)@.len() == old(region)@.len(),
                old(region)@.len() == data@.len() * ENTRY_SIZE ==> final(region)@
                    == multi_write_params(data@),
                outcome == Ok::<(), BufferTooSmallError>(()),
            {
                let mut offset: usize = 0;
                let mut i: usize = 0;
                while i < data.len()
                    invariant
                        i <= data@.len(),
                        offset == i * ENTRY_SIZE,
                        region@.len() == data@.len() * ENTRY_SIZE,
                        region@.subrange(0, offset as int) == multi_write_params(
                            data@.subrange(0, i as int),
                        ),
                    decreases data@.len() - i,
                {
                    let entry = &data[i];
                    let ghost before = region@;
                    region[offset] = entry.address.address();
                    region[offset + 1] = entry.data[0];
                    region[offset + 2] = entry.data[1];
                    region[offset + 3] = entry.data[2];
                    region[offset + 4] = entry.data[3];
                    proof {
                        let next = data@.subrange(0, i + 1);
                        assert(next.drop_last() =~= data@.subrange(0, i as int));
                        assert(next.last() == data@[i as int]);
                        assert(region@.subrange(0, offset as int) =~= before.subrange(
                            0,
                            offset as int,
                        ));
                        assert(region@.subrange(0, offset + ENTRY_SIZE) =~= multi_write_params(
                            next.drop_last(),
                        ) + next.last().params());
                    }
                    offset += ENTRY_SIZE;
                    i += 1;
                }
                proof {
                    assert(data@.subrange(0, i as int) =~= data@);
                    assert(region@.subrange(0, offset as int) =~= region@);
                }
                Ok(())
            };
        self.write_packet(motor_id, R::write_inst(), parameter_count, encode)
    }
}

} // verus!
