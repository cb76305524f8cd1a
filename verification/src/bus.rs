//! The bus: the two buffers of one serial line and the cursors into the read
//! buffer.
//!
//! The bus does no I/O by itself. It encodes the packet that is to be sent,
//! takes in the bytes that were read, and says after each pass over them
//! whether a whole packet is there or more bytes are needed. Whoever owns the
//! serial port sends, reads and waits.

use crate::checksum::calculate_checksum;
use crate::error::{BufferTooSmallError, InvalidChecksum, InvalidMessage, ReadError};
use crate::framing::{
    declared_len, header_offset, is_header_start, lemma_header_offset, lemma_header_offset_is,
    packet_body, packet_bytes, packet_head, packet_made, BusView, ReadStep, Transfer,
    HEADER_BYTE, HEADER_SIZE, MIN_PACKET_SIZE,
};
use crate::protocol::response::{parse_response, response_of, Response};
use crate::protocol::PACKET_LEN;
use crate::timing::{
    message_transfer_time, transfer_nanos, TransferTime, GUARD_NANOS, NANOS_PER_SEC,
};
use vstd::prelude::*;
use vstd::slice::slice_subrange;

verus! {

/// The size of the buffers that a bus gets where none are given.
pub const DEFAULT_BUFFER_SIZE: usize = 128;

/// The protocol state of one serial line.
pub struct Bus {
    /// The baud rate of the line.
    baud_rate: u32,
    /// The buffer for incoming messages.
    read_buffer: Vec<u8>,
    /// The number of valid bytes in the read buffer.
    read_len: usize,
    /// The number of leading bytes in the read buffer that belong to a packet
    /// already handed out.
    used_bytes: usize,
    /// The buffer for outgoing messages.
    write_buffer: Vec<u8>,
}

impl View for Bus {
    type V = BusView;

    closed spec fn view(&self) -> BusView {
        BusView {
            baud_rate: self.baud_rate,
            capacity: self.read_buffer@.len(),
            buffered: self.read_buffer@.subrange(0, self.read_len as int),
            used: self.used_bytes as nat,
            write: self.write_buffer@,
        }
    }
}

impl Bus {
    /// What every bus keeps to: the cursors lie within the read buffer, one
    /// behind the other, and the write buffer starts with the header bytes.
    pub closed spec fn wf(&self) -> bool {
        &&& self.used_bytes <= self.read_len <= self.read_buffer@.len() <= usize::MAX
        &&& self.write_buffer@.len() >= HEADER_SIZE + 3
        &&& self.write_buffer@[0] == HEADER_BYTE
        &&& self.write_buffer@[1] == HEADER_BYTE
    }

    /// A bus that is well formed has a well-formed view.
    pub proof fn lemma_view_wf(&self)
        requires
            self.wf(),
        ensures
            self@.wf(),
    {
    }

    /// Makes a bus with a read and a write buffer of 128 bytes each. Nothing
    /// is buffered; the write buffer holds the header bytes and zeros.
    pub fn new(baud_rate: u32) -> (bus: Bus)
        ensures
            bus.wf(),
            bus@ == (BusView {
                baud_rate,
                capacity: DEFAULT_BUFFER_SIZE as nat,
                buffered: Seq::empty(),
                used: 0,
                write: Seq::new(
                    DEFAULT_BUFFER_SIZE as nat,
                    |i: int|
                        if i < 2 {
                            HEADER_BYTE
                        } else {
                            0u8
                        },
                ),
            }),
    {
        let bus = Bus::with_buffers_and_baud_rate(
            vec![0u8; DEFAULT_BUFFER_SIZE],
            vec![0u8; DEFAULT_BUFFER_SIZE],
            baud_rate,
        );
        proof {
            assert(bus@.write =~= Seq::new(
                DEFAULT_BUFFER_SIZE as nat,
                |i: int|
                    if i < 2 {
                        HEADER_BYTE
                    } else {
                        0u8
                    },
            ));
        }
        bus
    }

    /// Makes a bus from buffers that the caller allocated. The write buffer
    /// has to hold at least a packet with one parameter; its first two bytes
    /// are set to the header bytes.
    pub fn with_buffers_and_baud_rate(
        read_buffer: Vec<u8>,
        write_buffer: Vec<u8>,
        baud_rate: u32,
    ) -> (bus: Bus)
        requires
            write_buffer@.len() >= HEADER_SIZE + 3,
        ensures
            bus.wf(),
            bus@ == (BusView {
                baud_rate,
                capacity: read_buffer@.len(),
                buffered: Seq::empty(),
                used: 0,
                write: write_buffer@.update(0, HEADER_BYTE).update(1, HEADER_BYTE),
            }),
    {
        let mut write_buffer = write_buffer;
        write_buffer[0] = HEADER_BYTE;
        write_buffer[1] = HEADER_BYTE;
        proof {
            assert(read_buffer@.len() == read_buffer.len());
            assert(read_buffer@.subrange(0, 0) =~= Seq::empty());
        }
        Bus { baud_rate, read_buffer, read_len: 0, used_bytes: 0, write_buffer }
    }

    /// The baud rate that the bus works with.
    pub fn baud_rate(&self) -> (baud_rate: u32)
        ensures
            baud_rate == self@.baud_rate,
    {
        self.baud_rate
    }

    /// Records a new baud rate, once the serial port was set to it.
    pub fn set_baud_rate(&mut self, baud_rate: u32)
        requires
            old(self).wf(),
        ensures
            final(self)@ == (BusView { baud_rate, ..old(self)@ }),
            final(self).wf(),
    {
        self.baud_rate = baud_rate;
    }

    /// The size of the read buffer.
    pub fn capacity(&self) -> (capacity: usize)
        ensures
            capacity == self@.capacity,
    {
        self.read_buffer.len()
    }

    /// The number of bytes that the read buffer still has room for.
    pub fn free_space(&self) -> (room: usize)
        requires
            self.wf(),
        ensures
            room == self@.room(),
    {
        self.read_buffer.len() - self.read_len
    }

    /// Writes a packet to the start of `buffer` and returns its length.
    ///
    /// The header, the id, the length byte and the instruction are written
    /// first. Then `encode_parameters` is called on the `parameter_count`
    /// bytes that follow, to fill them in. Last the checksum is computed over
    /// the bytes from the id to the last parameter and appended.
    ///
    /// Where `buffer` cannot hold the packet, nothing is written, the callback
    /// is not called, and the error says how many bytes are needed and how
    /// many there are. Where the callback fails, its error is returned.
    pub fn make_packet<F>(
        buffer: &mut [u8],
        packet_id: u8,
        instruction_id: u8,
        parameter_count: usize,
        encode_parameters: F,
    ) -> (result: Result<usize, BufferTooSmallError>) where
        F: FnOnce(&mut [u8]) -> Result<(), BufferTooSmallError>,

        requires
            parameter_count + MIN_PACKET_SIZE <= usize::MAX,
            forall|region: &mut [u8]|
                region@.len() == parameter_count ==> encode_parameters.requires((region,)),
            forall|region: &mut [u8], outcome: Result<(), BufferTooSmallError>|
                encode_parameters.ensures((region,), outcome) ==> final(region)@.len()
                    == region@.len(),
        ensures
            final(buffer)@.len() == old(buffer)@.len(),
            parameter_count + MIN_PACKET_SIZE > old(buffer)@.len() ==> {
                &&& result == Err::<usize, BufferTooSmallError>(
                    (BufferTooSmallError {
                        required_size: (parameter_count + MIN_PACKET_SIZE) as usize,
                        total_size: old(buffer)@.len() as usize,
                    }),
                )
                &&& final(buffer)@ == old(buffer)@
            },
            parameter_count + MIN_PACKET_SIZE <= old(buffer)@.len() ==> exists|
                region: &mut [u8],
                outcome: Result<(), BufferTooSmallError>,
            |
                {
                    &&& region@ == old(buffer)@.subrange(5, 5 + parameter_count)
                    &&& #[trigger] encode_parameters.ensures((region,), outcome)
                    &&& packet_made(
                        old(buffer)@,
                        final(buffer)@,
                        packet_id,
                        instruction_id,
                        final(region)@,
                        outcome,
                        result,
                    )
                },
    {
        let len = parameter_count + 2;
        match BufferTooSmallError::check(HEADER_SIZE + len, buffer.len()) {
            Err(e) => {
                return Err(e);
            },
            Ok(()) => {},
        }
        buffer[0] = HEADER_BYTE;
        buffer[1] = HEADER_BYTE;
        buffer[2] = packet_id;
        buffer[3] = (len % 256) as u8;
        buffer[4] = instruction_id;
        let (_head, rest) = buffer.split_at_mut(5);
        let (region, _tail) = rest.split_at_mut(parameter_count);
        let ghost region_before = region@;
        let ghost filled = final(region)@;
        let outcome = encode_parameters(region);
        proof {
            assert(region_before =~= old(buffer)@.subrange(5, 5 + parameter_count));
            assert(filled.len() == parameter_count);
            assert(buffer@ =~= packet_head(packet_id, instruction_id, parameter_count as nat)
                + filled + old(buffer)@.skip(5 + parameter_count));
        }
        match outcome {
            Err(e) => {
                proof {
                    assert(packet_made(
                        old(buffer)@,
                        buffer@,
                        packet_id,
                        instruction_id,
                        filled,
                        outcome,
                        Err(e),
                    ));
                }
                return Err(e);
            },
            Ok(()) => {},
        }
        let checksum_index = HEADER_SIZE + parameter_count + 1;
        let checksum = calculate_checksum(slice_subrange(buffer, 2, checksum_index));
        proof {
            assert(buffer@.subrange(2, checksum_index as int) =~= packet_body(
                packet_id,
                instruction_id,
                filled,
            ));
        }
        buffer[checksum_index] = checksum;
        proof {
            assert(buffer@ =~= packet_bytes(packet_id, instruction_id, filled) + old(buffer)@.skip(
                parameter_count + MIN_PACKET_SIZE,
            ));
            assert(packet_made(
                old(buffer)@,
                buffer@,
                packet_id,
                instruction_id,
                filled,
                outcome,
                Ok((checksum_index + 1) as usize),
            ));
        }
        Ok(checksum_index + 1)
    }

    /// Encodes a packet into the write buffer and forgets whatever was read
    /// before, so that no stale byte is taken for the response. Returns the
    /// bytes to send.
    ///
    /// Where the write buffer cannot hold the packet, the bus is left as it
    /// was. Where the callback fails, what was read before is kept.
    pub fn write_packet<F>(
        &mut self,
        packet_id: u8,
        instruction_id: u8,
        parameter_count: usize,
        encode_parameters: F,
    ) -> (result: Result<&[u8], BufferTooSmallError>) where
        F: FnOnce(&mut [u8]) -> Result<(), BufferTooSmallError>,

        requires
            old(self).wf(),
            parameter_count + MIN_PACKET_SIZE <= usize::MAX,
            forall|region: &mut [u8]|
                region@.len() == parameter_count ==> encode_parameters.requires((region,)),
            forall|region: &mut [u8], outcome: Result<(), BufferTooSmallError>|
                encode_parameters.ensures((region,), outcome) ==> final(region)@.len()
                    == region@.len(),
        ensures
            final(self).wf(),
            parameter_count + MIN_PACKET_SIZE > old(self)@.write.len() ==> {
                &&& result == Err::<&[u8], BufferTooSmallError>(
                    (BufferTooSmallError {
                        required_size: (parameter_count + MIN_PACKET_SIZE) as usize,
                        total_size: old(self)@.write.len() as usize,
                    }),
                )
                &&& final(self)@ == old(self)@
            },
            parameter_count + MIN_PACKET_SIZE <= old(self)@.write.len() ==> exists|
                region: &mut [u8],
                outcome: Result<(), BufferTooSmallError>,
            |
                {
                    &&& region@ == old(self)@.write.subrange(5, 5 + parameter_count)
                    &&& #[trigger] encode_parameters.ensures((region,), outcome)
                    &&& match outcome {
                        Ok(()) => {
                            &&& result is Ok
                            &&& result.unwrap()@ == packet_bytes(
                                packet_id,
                                instruction_id,
                                final(region)@,
                            )
                            &&& final(self)@ == old(self)@.after_write(result.unwrap()@)
                        },
                        Err(e) => {
                            &&& result == Err::<&[u8], BufferTooSmallError>(e)
                            &&& final(self)@ == old(self)@.after_failed_write(
                                packet_id,
                                instruction_id,
                                final(region)@,
                            )
                        },
                    }
                },
    {
        let made = Self::make_packet(
            self.write_buffer.as_mut_slice(),
            packet_id,
            instruction_id,
            parameter_count,
            encode_parameters,
        );
        let ghost written = self.write_buffer@;
        let packet_len = match made {
            Ok(packet_len) => packet_len,
            Err(e) => {
                return Err(e);
            },
        };
        self.used_bytes = 0;
        self.read_len = 0;
        let packet = slice_subrange(self.write_buffer.as_slice(), 0, packet_len);
        proof {
            let (region, outcome) = choose|
                region: &mut [u8],
                outcome: Result<(), BufferTooSmallError>,
            |
                {
                    &&& region@ == old(self)@.write.subrange(5, 5 + parameter_count)
                    &&& #[trigger] encode_parameters.ensures((region,), outcome)
                    &&& packet_made(
                        old(self)@.write,
                        written,
                        packet_id,
                        instruction_id,
                        final(region)@,
                        outcome,
                        made,
                    )
                };
            assert(self@.buffered =~= Seq::empty());
            assert(packet@ =~= packet_bytes(packet_id, instruction_id, final(region)@));
            assert(self@.write =~= packet@ + old(self)@.write.skip(packet@.len() as int));
        }
        Ok(packet)
    }

    /// Encodes a request that is answered by a response with
    /// `expected_response_parameters` bytes after the status byte.
    pub fn transfer_single<F>(
        &mut self,
        packet_id: u8,
        instruction_id: u8,
        parameter_count: usize,
        expected_response_parameters: u8,
        encode_parameters: F,
    ) -> (result: Result<Transfer<'_>, BufferTooSmallError>) where
        F: FnOnce(&mut [u8]) -> Result<(), BufferTooSmallError>,

        requires
            old(self).wf(),
            parameter_count + MIN_PACKET_SIZE <= usize::MAX,
            forall|region: &mut [u8]|
                region@.len() == parameter_count ==> encode_parameters.requires((region,)),
            forall|region: &mut [u8], outcome: Result<(), BufferTooSmallError>|
                encode_parameters.ensures((region,), outcome) ==> final(region)@.len()
                    == region@.len(),
        ensures
            final(self).wf(),
            parameter_count + MIN_PACKET_SIZE > old(self)@.write.len() ==> {
                &&& result == Err::<Transfer<'_>, BufferTooSmallError>(
                    (BufferTooSmallError {
                        required_size: (parameter_count + MIN_PACKET_SIZE) as usize,
                        total_size: old(self)@.write.len() as usize,
                    }),
                )
                &&& final(self)@ == old(self)@
            },
            parameter_count + MIN_PACKET_SIZE <= old(self)@.write.len() ==> exists|
                region: &mut [u8],
                outcome: Result<(), BufferTooSmallError>,
            |
                {
                    &&& region@ == old(self)@.write.subrange(5, 5 + parameter_count)
                    &&& #[trigger] encode_parameters.ensures((region,), outcome)
                    &&& match outcome {
                        Ok(()) => {
                            &&& result is Ok
                            &&& result.unwrap().packet@ == packet_bytes(
                                packet_id,
                                instruction_id,
                                final(region)@,
                            )
                            &&& result.unwrap().response_parameters
                                == expected_response_parameters
                            &&& final(self)@ == old(self)@.after_write(result.unwrap().packet@)
                        },
                        Err(e) => {
                            &&& result == Err::<Transfer<'_>, BufferTooSmallError>(e)
                            &&& final(self)@ == old(self)@.after_failed_write(
                                packet_id,
                                instruction_id,
                                final(region)@,
                            )
                        },
                    }
                },
    {
        match self.write_packet(packet_id, instruction_id, parameter_count, encode_parameters) {
            Ok(packet) => Ok(Transfer { packet, response_parameters: expected_response_parameters }),
            Err(e) => Err(e),
        }
    }

    /// Drops the first `len` buffered bytes and moves the rest to the start
    /// of the read buffer.
    fn consume_read_bytes(&mut self, len: usize)
        requires
            old(self).wf(),
            len <= old(self)@.buffered.len(),
        ensures
            final(self).wf(),
            final(self)@ == (BusView {
                buffered: old(self)@.buffered.skip(len as int),
                used: if old(self)@.used >= len {
                    (old(self)@.used - len) as nat
                } else {
                    0
                },
                ..old(self)@
            }),
    {
        let end = self.read_len;
        let mut i: usize = len;
        while i < end
            invariant
                len <= i <= end,
                end == self.read_len,
                end <= self.read_buffer@.len(),
                self.used_bytes <= self.read_len,
                self.used_bytes == old(self).used_bytes,
                self.baud_rate == old(self).baud_rate,
                self.write_buffer == old(self).write_buffer,
                self.write_buffer@.len() >= HEADER_SIZE + 3,
                self.write_buffer@[0] == HEADER_BYTE,
                self.write_buffer@[1] == HEADER_BYTE,
                self.read_buffer@.len() == old(self).read_buffer@.len(),
                forall|j: int| 0 <= j < i - len ==> self.read_buffer@[j] == old(self).read_buffer@[j + len],
                forall|j: int|
                    i - len <= j < self.read_buffer@.len() ==> self.read_buffer@[j] == old(
                        self,
                    ).read_buffer@[j],
            decreases end - i,
        {
            let byte = self.read_buffer[i];
            self.read_buffer[i - len] = byte;
            i += 1;
        }
        self.used_bytes = self.used_bytes.saturating_sub(len);
        self.read_len = self.read_len - len;
        proof {
            assert(self@.buffered =~= old(self)@.buffered.skip(len as int));
        }
    }

    /// Drops the used bytes and the garbage that follows them, up to the next
    /// byte at which a header may start. Returns the number of garbage bytes.
    pub fn remove_garbage(&mut self) -> (garbage_len: usize)
        requires
            old(self).wf(),
        ensures
            garbage_len == old(self)@.garbage_len(),
            final(self)@ == (BusView { buffered: old(self)@.front(), used: 0, ..old(self)@ }),
            final(self).wf(),
    {
        proof {
            lemma_header_offset(self@.buffered.skip(self@.used as int));
        }
        let garbage_len = find_header(
            slice_subrange(self.read_buffer.as_slice(), self.used_bytes, self.read_len),
        );
        proof {
            assert(self.read_buffer@.subrange(self.used_bytes as int, self.read_len as int)
                =~= self@.buffered.skip(self@.used as int));
        }
        self.consume_read_bytes(self.used_bytes + garbage_len);
        garbage_len
    }

    /// Takes in bytes that were read from the line: as many of them as the
    /// read buffer still has room for. Returns how many were taken.
    pub fn receive(&mut self, data: &[u8]) -> (accepted: usize)
        requires
            old(self).wf(),
        ensures
            accepted == old(self)@.accepted(data@.len()),
            final(self)@ == old(self)@.received(data@),
            final(self).wf(),
    {
        let room = self.read_buffer.len() - self.read_len;
        let accepted = if data.len() <= room {
            data.len()
        } else {
            room
        };
        let start = self.read_len;
        let mut i: usize = 0;
        while i < accepted
            invariant
                i <= accepted,
                accepted <= data@.len(),
                start + accepted <= self.read_buffer@.len(),
                start + accepted <= usize::MAX,
                start == self.read_len,
                self.used_bytes <= self.read_len,
                self.used_bytes == old(self).used_bytes,
                self.baud_rate == old(self).baud_rate,
                self.write_buffer == old(self).write_buffer,
                self.write_buffer@.len() >= HEADER_SIZE + 3,
                self.write_buffer@[0] == HEADER_BYTE,
                self.write_buffer@[1] == HEADER_BYTE,
                self.read_buffer@.len() == old(self).read_buffer@.len(),
                forall|j: int| 0 <= j < start ==> self.read_buffer@[j] == old(self).read_buffer@[j],
                forall|j: int| 0 <= j < i ==> self.read_buffer@[start + j] == data@[j],
            decreases accepted - i,
        {
            self.read_buffer[start + i] = data[i];
            i += 1;
        }
        self.read_len = start + accepted;
        proof {
            assert(self@.buffered =~= old(self)@.received(data@).buffered);
        }
        accepted
    }

    /// One pass over the read buffer.
    ///
    /// Used bytes and leading garbage are dropped. Then, as soon as the four
    /// header bytes are there, the size that the message declares is held
    /// against the size of the read buffer; a message that is whole has its
    /// checksum verified. A packet that passes stays at the front of the read
    /// buffer, marked as used, until the next pass. A message whose checksum
    /// fails is dropped, and only that message.
    ///
    /// Where the step reports no packet, more bytes have to be read and given
    /// to [`Bus::receive`], and the read buffer has room for at least one.
    pub fn poll_packet<E>(&mut self) -> (result: Result<ReadStep, ReadError<E>>)
        requires
            old(self).wf(),
        ensures
            result == old(self)@.poll_result::<E>(),
            final(self)@ == old(self)@.after_poll(),
            final(self).wf(),
            result matches Ok(step) && step.packet_len is None ==> final(self)@.buffered.len()
                < final(self)@.capacity,
    {
        let capacity = self.read_buffer.len();
        match BufferTooSmallError::check(MIN_PACKET_SIZE, capacity) {
            Err(e) => {
                return Err(ReadError::BufferFull(e));
            },
            Ok(()) => {},
        }
        let skipped = self.remove_garbage();
        let ghost front = self@.buffered;
        if self.read_len >= HEADER_SIZE {
            let body_len = self.read_buffer[PACKET_LEN] as usize;
            let message_len = HEADER_SIZE + body_len;
            proof {
                assert(front[3] == self.read_buffer@[3]);
                assert(message_len == declared_len(front));
            }
            match BufferTooSmallError::check(message_len, capacity) {
                Err(e) => {
                    return Err(ReadError::BufferFull(e));
                },
                Ok(()) => {},
            }
            if self.read_len >= message_len {
                let parameters_end = message_len - 1;
                let checksum_message = self.read_buffer[parameters_end];
                let checksum_computed = calculate_checksum(
                    slice_subrange(self.read_buffer.as_slice(), 2, parameters_end),
                );
                proof {
                    assert(self.read_buffer@.subrange(2, parameters_end as int) =~= front.subrange(
                        2,
                        message_len - 1,
                    ));
                    assert(front[message_len - 1] == checksum_message);
                }
                if checksum_message != checksum_computed {
                    self.consume_read_bytes(message_len);
                    return Err(
                        ReadError::InvalidMessage(
                            InvalidMessage::InvalidChecksum(
                                InvalidChecksum {
                                    message: checksum_message,
                                    computed: checksum_computed,
                                },
                            ),
                        ),
                    );
                }
                self.used_bytes = message_len;
                return Ok(ReadStep { skipped, packet_len: Some(parameters_end) });
            }
        }
        Ok(ReadStep { skipped, packet_len: None })
    }

    /// The packet that the last pass handed out, without its checksum byte.
    /// It stays until the next pass or the next packet that is written; the
    /// slice is empty where there is none.
    pub fn last_packet(&self) -> (packet: &[u8])
        requires
            self.wf(),
        ensures
            packet@ == self@.last_packet(),
    {
        if self.used_bytes > 0 {
            let packet = slice_subrange(self.read_buffer.as_slice(), 0, self.used_bytes - 1);
            proof {
                assert(packet@ =~= self@.last_packet());
            }
            packet
        } else {
            let packet = slice_subrange(self.read_buffer.as_slice(), 0, 0);
            proof {
                assert(packet@ =~= self@.last_packet());
            }
            packet
        }
    }
}

impl Bus {
    /// The time to wait for a response with `expected_parameters` bytes after
    /// the status byte: the time that so many bytes take on the line, and one
    /// millisecond.
    pub fn response_timeout(&self, expected_parameters: u8) -> (time: TransferTime)
        requires
            self.wf(),
            self@.baud_rate > 0,
        ensures
            time@ == transfer_nanos(expected_parameters as nat, self@.baud_rate as nat)
                + GUARD_NANOS,
            time.nanos < NANOS_PER_SEC,
    {
        let time = message_transfer_time(expected_parameters as u32, self.baud_rate);
        proof {
            assert(time.secs <= time@);
            assert(time@ <= 0xFF * 10 * 1_000_000_000) by (nonlinear_arith)
                requires
                    time@ == transfer_nanos(expected_parameters as nat, self.baud_rate as nat),
                    self.baud_rate > 0,
                    expected_parameters <= 0xFF,
            ;
        }
        let nanos = time.nanos as u64 + GUARD_NANOS;
        if nanos >= NANOS_PER_SEC {
            TransferTime { secs: time.secs + 1, nanos: (nanos - NANOS_PER_SEC) as u32 }
        } else {
            TransferTime { secs: time.secs, nanos: nanos as u32 }
        }
    }

    /// The response in the packet that the last pass handed out, checked
    /// against the motor `packet_id` that was addressed. Where the pass
    /// handed out no packet, or one that ends before its status byte, the
    /// result is an invalid message.
    pub fn read_response<E>(&self, packet_id: u8) -> (result: Result<
        Response<&[u8]>,
        ReadError<E>,
    >)
        requires
            self.wf(),
        ensures
            match result {
                Ok(response) => response_of::<E>(self@.last_packet(), packet_id) == Ok::<
                    Response<Seq<u8>>,
                    ReadError<E>,
                >(response@),
                Err(e) => response_of::<E>(self@.last_packet(), packet_id) == Err::<
                    Response<Seq<u8>>,
                    ReadError<E>,
                >(e),
            },
    {
        parse_response(self.last_packet(), packet_id)
    }
}

/// Finds where a header may start in `buffer`: the first index that holds two
/// header bytes, or one header byte as the last byte of `buffer`. Returns the
/// length of `buffer` where there is no such index.
pub fn find_header(buffer: &[u8]) -> (offset: usize)
    ensures
        offset == header_offset(buffer@),
        offset <= buffer@.len(),
        offset < buffer@.len() ==> is_header_start(buffer@, offset as int),
        forall|j: int| 0 <= j < offset ==> !is_header_start(buffer@, j),
{
    let mut i: usize = 0;
    while i < buffer.len()
        invariant
            i <= buffer@.len(),
            forall|j: int| 0 <= j < i ==> !is_header_start(buffer@, j),
        decreases buffer@.len() - i,
    {
        if buffer[i] == HEADER_BYTE && (i + 1 == buffer.len() || buffer[i + 1] == HEADER_BYTE) {
            proof {
                lemma_header_offset_is(buffer@, i as int);
            }
            return i;
        }
        i += 1;
    }
    proof {
        lemma_header_offset_is(buffer@, i as int);
    }
    i
}

} // verus!
