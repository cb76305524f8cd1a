//! The wire format and the rules by which a byte stream is cut into packets,
//! as a mathematical model.
//!
//! A packet is `[0xFF, 0xFF, id, length, instruction, params.., checksum]`,
//! with `length` the number of parameters plus two and `checksum` taken over
//! the bytes from `id` up to the last parameter.

use crate::checksum::checksum_of;
use crate::error::{BufferTooSmallError, InvalidChecksum, InvalidMessage, ReadError};
use vstd::prelude::*;

verus! {

/// The number of bytes up to and including the length byte.
pub const HEADER_SIZE: usize = 4;

/// The size of the smallest packet: one without parameters.
pub const MIN_PACKET_SIZE: usize = 6;

/// The largest number of parameters whose length byte does not wrap.
pub const MAX_PARAMETERS: usize = 253;

/// The byte that a packet starts with, twice.
pub const HEADER_BYTE: u8 = 0xFF;

/// The checksummed part of a packet: id, length byte, instruction and
/// parameters. The length byte holds the low eight bits of the count.
pub open spec fn packet_body(motor_id: u8, instruction: u8, params: Seq<u8>) -> Seq<u8> {
    seq![motor_id, ((params.len() + 2) % 256) as u8, instruction] + params
}

/// The bytes of a whole packet.
pub open spec fn packet_bytes(motor_id: u8, instruction: u8, params: Seq<u8>) -> Seq<u8> {
    seq![HEADER_BYTE, HEADER_BYTE] + packet_body(motor_id, instruction, params) + seq![
        checksum_of(packet_body(motor_id, instruction, params)),
    ]
}

/// The five bytes in front of the parameters of a packet.
pub open spec fn packet_head(motor_id: u8, instruction: u8, parameter_count: nat) -> Seq<u8> {
    seq![
        HEADER_BYTE,
        HEADER_BYTE,
        motor_id,
        ((parameter_count + 2) % 256) as u8,
        instruction,
    ]
}

/// What making a packet leaves in a buffer and returns, once the callback
/// that fills in the parameters has left `params` and returned `outcome`.
///
/// Where the callback succeeds, the buffer starts with the packet and the
/// length of the packet is returned. Where it fails, its error is returned,
/// and the buffer holds the five bytes in front of the parameters and
/// whatever the callback left. What follows in the buffer is as it was.
pub open spec fn packet_made(
    before: Seq<u8>,
    after: Seq<u8>,
    motor_id: u8,
    instruction: u8,
    params: Seq<u8>,
    outcome: Result<(), BufferTooSmallError>,
    result: Result<usize, BufferTooSmallError>,
) -> bool {
    match outcome {
        Ok(()) => {
            &&& result == Ok::<usize, BufferTooSmallError>(
                (params.len() + MIN_PACKET_SIZE) as usize,
            )
            &&& after == packet_bytes(motor_id, instruction, params) + before.skip(
                params.len() + MIN_PACKET_SIZE,
            )
        },
        Err(e) => {
            &&& result == Err::<usize, BufferTooSmallError>(e)
            &&& after == packet_head(motor_id, instruction, params.len()) + params + before.skip(
                params.len() + MIN_PACKET_SIZE - 1,
            )
        },
    }
}

/// Whether a header may start at index `i` of `s`: two header bytes, or one
/// where it is the last byte of `s`, so that a header cut in two by the end of
/// a read is kept.
pub open spec fn is_header_start(s: Seq<u8>, i: int) -> bool {
    &&& 0 <= i < s.len()
    &&& s[i] == HEADER_BYTE
    &&& i + 1 < s.len() ==> s[i + 1] == HEADER_BYTE
}

/// The first index at which a header may start, or the length of `s` where
/// there is none: the number of leading bytes that belong to no packet.
pub open spec fn header_offset(s: Seq<u8>) -> nat
    decreases s.len(),
{
    if s.len() == 0 {
        0
    } else if is_header_start(s, 0) {
        0
    } else {
        1 + header_offset(s.skip(1))
    }
}

/// What the bytes at the front of the read buffer amount to, once they start
/// with a header.
pub enum Framing {
    /// The message is not yet whole.
    Incomplete,
    /// The message declares more bytes than the read buffer can hold.
    TooLarge { message_len: nat },
    /// The message is whole, and its checksum byte is not the checksum of its
    /// bytes.
    Corrupt { message_len: nat, message: u8, computed: u8 },
    /// The message is whole and its checksum matches.
    Packet { message_len: nat },
}

/// The size of the message whose header is at the front of `front`: the four
/// header bytes and what the length byte declares.
pub open spec fn declared_len(front: Seq<u8>) -> nat
    recommends
        front.len() >= HEADER_SIZE,
{
    HEADER_SIZE as nat + front[3] as nat
}

/// Decides what the bytes `front` amount to in a read buffer of `capacity`
/// bytes. The length byte is read as soon as four bytes are there.
pub open spec fn frame(front: Seq<u8>, capacity: nat) -> Framing {
    if front.len() < HEADER_SIZE {
        Framing::Incomplete
    } else {
        let message_len = declared_len(front);
        let computed = checksum_of(front.subrange(2, message_len - 1));
        if message_len > capacity {
            Framing::TooLarge { message_len }
        } else if front.len() < message_len {
            Framing::Incomplete
        } else if front[message_len - 1] != computed {
            Framing::Corrupt { message_len, message: front[message_len - 1], computed }
        } else {
            Framing::Packet { message_len }
        }
    }
}

/// A request that was encoded and the response that it is to get.
#[derive(Debug, Clone, Copy, PartialEq, Eq)]
pub struct Transfer<'a> {
    /// The bytes to send.
    pub packet: &'a [u8],
    /// The number of bytes after the status byte that the response is
    /// expected to hold. The deadline of the read is made from it.
    pub response_parameters: u8,
}

/// What one pass over the read buffer reports.
#[derive(Debug, Clone, Copy, PartialEq, Eq)]
pub struct ReadStep {
    /// The number of garbage bytes that were dropped in front of the header.
    pub skipped: usize,
    /// The length of the packet that is now at the front of the read buffer,
    /// checksum byte not counted; `None` while more bytes have to be read.
    pub packet_len: Option<usize>,
}

/// The state of a bus, as far as contracts speak of it.
pub struct BusView {
    /// The baud rate of the line.
    pub baud_rate: u32,
    /// The size of the read buffer.
    pub capacity: nat,
    /// The bytes that were read and not yet dropped, oldest first.
    pub buffered: Seq<u8>,
    /// How many of the first buffered bytes belong to a packet already handed
    /// out.
    pub used: nat,
    /// The whole write buffer.
    pub write: Seq<u8>,
}

impl BusView {
    /// What holds of every bus.
    pub open spec fn wf(self) -> bool {
        &&& self.used <= self.buffered.len() <= self.capacity <= usize::MAX
        &&& self.write.len() >= HEADER_SIZE + 3
        &&& self.write[0] == HEADER_BYTE
        &&& self.write[1] == HEADER_BYTE
    }

    /// The number of garbage bytes between the used bytes and the next header.
    pub open spec fn garbage_len(self) -> nat {
        header_offset(self.buffered.skip(self.used as int))
    }

    /// The buffered bytes from the next header on.
    pub open spec fn front(self) -> Seq<u8> {
        self.buffered.skip((self.used + self.garbage_len()) as int)
    }

    /// The packet that was handed out last and is still in the buffer, without
    /// its checksum byte; empty where there is none.
    pub open spec fn last_packet(self) -> Seq<u8> {
        if self.used > 0 {
            self.buffered.subrange(0, self.used - 1)
        } else {
            Seq::empty()
        }
    }

    /// The number of bytes that the read buffer still has room for.
    pub open spec fn room(self) -> nat {
        (self.capacity - self.buffered.len()) as nat
    }

    /// How many of `len` bytes that arrive are taken in: all that there is
    /// room for.
    pub open spec fn accepted(self, len: nat) -> nat {
        if len <= self.room() {
            len
        } else {
            self.room()
        }
    }

    /// The state once `data` arrived: as much of it as the read buffer still
    /// has room for is appended.
    pub open spec fn received(self, data: Seq<u8>) -> BusView {
        BusView { buffered: self.buffered + data.take(self.accepted(data.len()) as int), ..self }
    }

    /// What encoding a packet into the write buffer returns: the bytes of the
    /// packet, or the sizes where the write buffer cannot hold them.
    pub open spec fn encoded(self, motor_id: u8, instruction: u8, params: Seq<u8>) -> Result<
        Seq<u8>,
        BufferTooSmallError,
    > {
        if params.len() + MIN_PACKET_SIZE <= self.write.len() {
            Ok(packet_bytes(motor_id, instruction, params))
        } else {
            Err(
                BufferTooSmallError {
                    required_size: (params.len() + MIN_PACKET_SIZE) as usize,
                    total_size: self.write.len() as usize,
                },
            )
        }
    }

    /// The state once a callback failed to fill in the parameters of a
    /// packet and left `params`: the write buffer holds the start of the
    /// packet, and what was read before is still there.
    pub open spec fn after_failed_write(self, motor_id: u8, instruction: u8, params: Seq<u8>) -> BusView {
        BusView {
            write: packet_head(motor_id, instruction, params.len()) + params + self.write.skip(
                params.len() + MIN_PACKET_SIZE - 1,
            ),
            ..self
        }
    }

    /// The state once `packet` was encoded into the write buffer: the packet
    /// is at the start of the write buffer, and nothing that was read before
    /// is left.
    pub open spec fn after_write(self, packet: Seq<u8>) -> BusView {
        BusView {
            buffered: Seq::empty(),
            used: 0,
            write: packet + self.write.skip(packet.len() as int),
            ..self
        }
    }

    /// What one pass over the read buffer returns.
    pub open spec fn poll_result<E>(self) -> Result<ReadStep, ReadError<E>> {
        let skipped = self.garbage_len() as usize;
        if self.capacity < MIN_PACKET_SIZE {
            Err(
                ReadError::BufferFull(
                    BufferTooSmallError {
                        required_size: MIN_PACKET_SIZE,
                        total_size: self.capacity as usize,
                    },
                ),
            )
        } else {
            match frame(self.front(), self.capacity) {
                Framing::Incomplete => Ok(ReadStep { skipped, packet_len: None }),
                Framing::TooLarge { message_len } => Err(
                    ReadError::BufferFull(
                        BufferTooSmallError {
                            required_size: message_len as usize,
                            total_size: self.capacity as usize,
                        },
                    ),
                ),
                Framing::Corrupt { message, computed, .. } => Err(
                    ReadError::InvalidMessage(
                        InvalidMessage::InvalidChecksum(InvalidChecksum { message, computed }),
                    ),
                ),
                Framing::Packet { message_len } => Ok(
                    ReadStep { skipped, packet_len: Some((message_len - 1) as usize) },
                ),
            }
        }
    }

    /// The state after one pass over the read buffer. Used bytes and garbage
    /// are dropped; a corrupt message is dropped too; a packet stays in place
    /// and is marked as used.
    pub open spec fn after_poll(self) -> BusView {
        if self.capacity < MIN_PACKET_SIZE {
            self
        } else {
            match frame(self.front(), self.capacity) {
                Framing::Incomplete => BusView { buffered: self.front(), used: 0, ..self },
                Framing::TooLarge { .. } => BusView { buffered: self.front(), used: 0, ..self },
                Framing::Corrupt { message_len, .. } => BusView {
                    buffered: self.front().skip(message_len as int),
                    used: 0,
                    ..self
                },
                Framing::Packet { message_len } => BusView {
                    buffered: self.front(),
                    used: message_len,
                    ..self
                },
            }
        }
    }
}

/// `header_offset` is the least index at which a header may start, and the
/// length of the bytes where there is none.
pub proof fn lemma_header_offset(s: Seq<u8>)
    ensures
        header_offset(s) <= s.len(),
        header_offset(s) < s.len() ==> is_header_start(s, header_offset(s) as int),
        forall|j: int| 0 <= j < header_offset(s) ==> !is_header_start(s, j),
    decreases s.len(),
{
    if s.len() > 0 && !is_header_start(s, 0) {
        let rest = s.skip(1);
        lemma_header_offset(rest);
        assert forall|j: int| 0 <= j < header_offset(s) implies !is_header_start(s, j) by {
            if j > 0 {
                assert(!is_header_start(rest, j - 1));
            }
        }
    }
}

/// An index up to which no header starts, and at which one does or the bytes
/// end, is the header offset.
pub proof fn lemma_header_offset_is(s: Seq<u8>, k: int)
    requires
        0 <= k <= s.len(),
        k < s.len() ==> is_header_start(s, k),
        forall|j: int| 0 <= j < k ==> !is_header_start(s, j),
    ensures
        header_offset(s) == k,
{
    lemma_header_offset(s);
}

/// A header that has begun is kept, and only what precedes it is dropped.
///
/// The read buffer holds `garbage` and then `started`, which begins with a
/// header: two header bytes, or a single one where the read ended there. No
/// header may start within the garbage: it holds no two header bytes in a row
/// and does not end in one. Then exactly the garbage is counted as such, and
/// what has begun stays at the front, so that a header cut in two by the end
/// of a read is not lost.
pub proof fn lemma_started_header_is_kept(view: BusView, garbage: Seq<u8>, started: Seq<u8>)
    requires
        view.used == 0,
        view.buffered == garbage + started,
        is_header_start(started, 0),
        forall|i: int| 0 <= i < garbage.len() ==> !is_header_start(view.buffered, i),
    ensures
        view.garbage_len() == garbage.len(),
        view.front() == started,
{
    let skipped = garbage.len() as int;
    assert(view.buffered.skip(0) =~= view.buffered);
    assert(view.buffered[skipped] == started[0]);
    if started.len() > 1 {
        assert(view.buffered[skipped + 1] == started[1]);
    }
    lemma_header_offset_is(view.buffered, skipped);
    assert(view.front() =~= started);
}

/// A packet in the read buffer is found behind whatever garbage precedes
/// it, and is handed out unchanged.
///
/// The read buffer holds `garbage`, then a packet, then `rest`. No header may
/// start within the garbage: it holds no two header bytes in a row and does
/// not end in one. Then one pass reports that it skipped exactly the garbage,
/// and hands out the packet; what followed the packet stays behind it.
pub proof fn lemma_garbage_is_skipped<E>(
    view: BusView,
    garbage: Seq<u8>,
    motor_id: u8,
    instruction: u8,
    params: Seq<u8>,
    rest: Seq<u8>,
)
    requires
        view.wf(),
        view.used == 0,
        view.buffered == garbage + packet_bytes(motor_id, instruction, params) + rest,
        params.len() <= MAX_PARAMETERS,
        forall|i: int| 0 <= i < garbage.len() ==> !is_header_start(view.buffered, i),
    ensures
        view.garbage_len() == garbage.len(),
        view.poll_result::<E>() == Ok::<ReadStep, ReadError<E>>(
            ReadStep {
                skipped: garbage.len() as usize,
                packet_len: Some((params.len() + MIN_PACKET_SIZE - 1) as usize),
            },
        ),
        view.after_poll().buffered == packet_bytes(motor_id, instruction, params) + rest,
        view.after_poll().used == params.len() + MIN_PACKET_SIZE,
        view.after_poll().last_packet() == packet_bytes(motor_id, instruction, params).drop_last(),
{
    let packet = packet_bytes(motor_id, instruction, params);
    let body = packet_body(motor_id, instruction, params);
    assert(view.buffered =~= garbage + (packet + rest));
    lemma_started_header_is_kept(view, garbage, packet + rest);
    let front = view.front();
    assert(front[3] == packet[3]);
    assert(declared_len(front) == packet.len());
    assert(front.subrange(2, packet.len() - 1) =~= body);
    assert(front[packet.len() - 1] == packet[packet.len() - 1]);
    assert(frame(front, view.capacity) == Framing::Packet { message_len: packet.len() });
    assert(view.after_poll().last_packet() =~= packet.drop_last());
}

/// A packet that was encoded is decoded as itself.
///
/// The read buffer holds the bytes of a packet with at most 253 parameters
/// and nothing else. Then one pass skips nothing and hands out the packet, in
/// which the id, the length, the instruction and the parameters stand as they
/// were encoded; and the checksum computed over them is the byte that the
/// encoder appended.
pub proof fn lemma_encode_then_decode<E>(
    view: BusView,
    motor_id: u8,
    instruction: u8,
    params: Seq<u8>,
)
    requires
        view.wf(),
        view.used == 0,
        view.buffered == packet_bytes(motor_id, instruction, params),
        params.len() <= MAX_PARAMETERS,
    ensures
        view.poll_result::<E>() == Ok::<ReadStep, ReadError<E>>(
            ReadStep {
                skipped: 0,
                packet_len: Some((params.len() + MIN_PACKET_SIZE - 1) as usize),
            },
        ),
        ({
            let packet = view.after_poll().last_packet();
            &&& packet.len() == params.len() + MIN_PACKET_SIZE - 1
            &&& packet[0] == HEADER_BYTE
            &&& packet[1] == HEADER_BYTE
            &&& packet[2] == motor_id
            &&& packet[3] == params.len() + 2
            &&& packet[4] == instruction
            &&& packet.skip(5) == params
            &&& checksum_of(packet.skip(2)) == packet_bytes(motor_id, instruction, params).last()
        }),
{
    let encoded = packet_bytes(motor_id, instruction, params);
    assert(view.buffered =~= Seq::<u8>::empty() + encoded + Seq::<u8>::empty());
    lemma_garbage_is_skipped::<E>(
        view,
        Seq::empty(),
        motor_id,
        instruction,
        params,
        Seq::empty(),
    );
    let packet = view.after_poll().last_packet();
    assert(packet.skip(5) =~= params);
    assert(packet.skip(2) =~= packet_body(motor_id, instruction, params));
}

/// Once the garbage in front of the next header is dropped, there is none.
pub proof fn lemma_front_has_no_garbage(s: Seq<u8>)
    ensures
        header_offset(s.skip(header_offset(s) as int)) == 0,
{
    lemma_header_offset(s);
    let k = header_offset(s) as int;
    if k < s.len() {
        assert(is_header_start(s.skip(k), 0)) by {
            assert(s.skip(k)[0] == s[k]);
            if k + 1 < s.len() {
                assert(s.skip(k)[1] == s[k + 1]);
            }
        }
    }
}

/// A pass that has nothing new to look at finds what the pass before found.
///
/// Where a pass reported that more bytes are needed, and none arrived, the
/// next pass reports the same, skips nothing and leaves the state as it is:
/// a read that returns no byte is no failure and loses nothing.
pub proof fn lemma_poll_without_new_bytes<E>(view: BusView)
    requires
        view.wf(),
        view.poll_result::<E>() matches Ok(step) && step.packet_len is None,
    ensures
        view.after_poll().received(Seq::empty()) == view.after_poll(),
        view.after_poll().poll_result::<E>() == Ok::<ReadStep, ReadError<E>>(
            ReadStep { skipped: 0, packet_len: None },
        ),
        view.after_poll().after_poll() == view.after_poll(),
{
    let next = view.after_poll();
    lemma_header_offset(view.buffered.skip(view.used as int));
    lemma_front_has_no_garbage(view.buffered.skip(view.used as int));
    assert(view.buffered.skip(view.used as int).skip(view.garbage_len() as int) =~= view.front());
    assert(next.buffered.skip(0) =~= next.buffered);
    assert(next.front() =~= view.front());
    assert(next.received(Seq::empty()).buffered =~= next.buffered);
}

/// A message that declares more bytes than the read buffer has is refused as
/// soon as its length byte is there: the pass fails with the size that is
/// needed and the size that there is. No byte of the message is dropped.
pub proof fn lemma_oversized_message_is_refused<E>(view: BusView)
    requires
        view.wf(),
        view.front().len() >= HEADER_SIZE,
        declared_len(view.front()) > view.capacity,
    ensures
        view.poll_result::<E>() == Err::<ReadStep, ReadError<E>>(
            ReadError::BufferFull(
                BufferTooSmallError {
                    required_size: if view.capacity < MIN_PACKET_SIZE {
                        MIN_PACKET_SIZE
                    } else {
                        declared_len(view.front()) as usize
                    },
                    total_size: view.capacity as usize,
                },
            ),
        ),
        view.after_poll() == if view.capacity < MIN_PACKET_SIZE {
            view
        } else {
            BusView { buffered: view.front(), used: 0, ..view }
        },
{
}

} // verus!
