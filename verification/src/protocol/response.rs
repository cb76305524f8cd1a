//! What a motor answers.

use crate::error::{
    ExpectedCount, InvalidMessage, InvalidPacketId, InvalidParameterCount, MotorError, ReadError,
};
use crate::protocol::motor_error::{
    ErrorFlags, COMMUNICATION, ERROR_FLAGS, HARDWARE, KNOWN_FLAGS, WARNING_FLAGS,
};
use crate::protocol::{PACKET_ERROR, PACKET_ID};
use vstd::prelude::*;
use vstd::slice::slice_subrange;

verus! {

/// A response from a motor.
#[derive(Debug, Clone, Copy, PartialEq, Eq)]
pub struct Response<T> {
    /// The motor that sent the response.
    pub motor_id: u8,
    /// The flags of the status byte, where one of them is a warning.
    pub warning: Option<ErrorFlags>,
    /// The data of the response.
    pub data: T,
}

impl<T: View> View for Response<T> {
    type V = Response<T::V>;

    open spec fn view(&self) -> Response<T::V> {
        Response { motor_id: self.motor_id, warning: self.warning, data: self.data@ }
    }
}

/// The flags that the status byte of a response reads as; none where the
/// byte holds a bit that names no flag.
pub open spec fn flags_of(status: u8) -> Option<ErrorFlags> {
    if status <= KNOWN_FLAGS {
        Some(ErrorFlags { bits: status })
    } else {
        None
    }
}

/// The warning that a response with the status byte `status` carries: its
/// flags, where one of them is a warning.
pub open spec fn warning_of(status: u8) -> Option<ErrorFlags> {
    match flags_of(status) {
        Some(flags) if flags.bits & WARNING_FLAGS != 0 => Some(flags),
        _ => None,
    }
}

/// The failure that a response with the status byte `status` reports: one
/// where the byte holds an error flag, whatever else it holds. The failure
/// carries every known flag of the byte.
pub open spec fn fault_of(status: u8) -> Option<MotorError> {
    if status & ERROR_FLAGS != 0 {
        Some(MotorError { flags: ErrorFlags { bits: status & KNOWN_FLAGS } })
    } else {
        None
    }
}

/// What the packet of a response amounts to for whoever addressed the motor
/// `packet_id`.
///
/// A packet that ends before its status byte is an invalid message. A packet
/// from another motor is refused. A status byte with an error flag is the
/// failure that the motor reports. Otherwise the response is handed out, with
/// the status flags as its warning where one of them is a warning.
pub open spec fn response_of<E>(packet: Seq<u8>, packet_id: u8) -> Result<
    Response<Seq<u8>>,
    ReadError<E>,
> {
    let motor_id = packet[PACKET_ID as int];
    let status = packet[PACKET_ERROR as int];
    if packet.len() <= PACKET_ERROR {
        Err(
            ReadError::InvalidMessage(
                InvalidMessage::InvalidParameterCount(
                    InvalidParameterCount {
                        actual: packet.len() as usize,
                        expected: ExpectedCount::Min((PACKET_ERROR + 1) as usize),
                    },
                ),
            ),
        )
    } else if motor_id != packet_id {
        Err(
            ReadError::InvalidMessage(
                InvalidMessage::InvalidPacketId(
                    InvalidPacketId { actual: motor_id, expected: Some(packet_id) },
                ),
            ),
        )
    } else {
        match fault_of(status) {
            Some(error) => Err(ReadError::MotorError(error)),
            None => Ok(
                Response {
                    motor_id,
                    warning: warning_of(status),
                    data: packet.skip(PACKET_ERROR as int + 1),
                },
            ),
        }
    }
}

/// A packet that ends before its status byte is no response: it is refused
/// as an invalid message, with the number of bytes it holds and the number it
/// has to hold at least.
pub proof fn lemma_short_packet_is_refused<E>(packet: Seq<u8>, packet_id: u8)
    requires
        packet.len() <= PACKET_ERROR,
    ensures
        response_of::<E>(packet, packet_id) == Err::<Response<Seq<u8>>, ReadError<E>>(
            ReadError::InvalidMessage(
                InvalidMessage::InvalidParameterCount(
                    InvalidParameterCount {
                        actual: packet.len() as usize,
                        expected: ExpectedCount::Min((PACKET_ERROR + 1) as usize),
                    },
                ),
            ),
        ),
{
}

/// A response whose status byte holds the communication warning and nothing
/// else succeeds, and carries that warning.
pub proof fn lemma_communication_warning_is_passed_on<E>(packet: Seq<u8>, packet_id: u8)
    requires
        packet.len() > PACKET_ERROR,
        packet[PACKET_ID as int] == packet_id,
        packet[PACKET_ERROR as int] == COMMUNICATION,
    ensures
        response_of::<E>(packet, packet_id) == Ok::<Response<Seq<u8>>, ReadError<E>>(
            Response {
                motor_id: packet_id,
                warning: Some(ErrorFlags { bits: COMMUNICATION }),
                data: packet.skip(PACKET_ERROR as int + 1),
            },
        ),
{
    assert(0b0000_0001u8 & 0b0111_1100u8 == 0) by (bit_vector);
    assert(0b0000_0001u8 & 0b0000_0011u8 != 0) by (bit_vector);
}

/// A response whose status byte holds an error flag is the failure that the
/// motor reports, whatever else the byte holds.
pub proof fn lemma_error_flag_is_reported<E>(packet: Seq<u8>, packet_id: u8)
    requires
        packet.len() > PACKET_ERROR,
        packet[PACKET_ID as int] == packet_id,
        packet[PACKET_ERROR as int] & ERROR_FLAGS != 0,
    ensures
        response_of::<E>(packet, packet_id) == Err::<Response<Seq<u8>>, ReadError<E>>(
            ReadError::MotorError(
                MotorError {
                    flags: ErrorFlags { bits: packet[PACKET_ERROR as int] & KNOWN_FLAGS },
                },
            ),
        ),
{
}

/// A response whose status byte holds the hardware error is the failure that
/// the motor reports, whatever else the byte holds.
pub proof fn lemma_hardware_error_is_reported<E>(packet: Seq<u8>, packet_id: u8)
    requires
        packet.len() > PACKET_ERROR,
        packet[PACKET_ID as int] == packet_id,
        packet[PACKET_ERROR as int] & HARDWARE != 0,
    ensures
        response_of::<E>(packet, packet_id) == Err::<Response<Seq<u8>>, ReadError<E>>(
            ReadError::MotorError(
                MotorError {
                    flags: ErrorFlags { bits: packet[PACKET_ERROR as int] & KNOWN_FLAGS },
                },
            ),
        ),
        (packet[PACKET_ERROR as int] & KNOWN_FLAGS) & HARDWARE != 0,
{
    let status = packet[PACKET_ERROR as int];
    assert(status & 0b0010_0000u8 != 0 ==> status & 0b0111_1100u8 != 0) by (bit_vector);
    assert(status & 0b0010_0000u8 != 0 ==> (status & 0b0111_1111u8) & 0b0010_0000u8 != 0)
        by (bit_vector);
}

/// Takes the packet of a response apart and checks it: the packet has to
/// reach to its status byte and come from the motor `packet_id`, and its
/// status byte may hold no error flag.
///
/// `packet` is a packet without its checksum byte.
pub fn parse_response<'a, E>(packet: &'a [u8], packet_id: u8) -> (result: Result<
    Response<&'a [u8]>,
    ReadError<E>,
>)
    ensures
        match result {
            Ok(response) => response_of::<E>(packet@, packet_id) == Ok::<
                Response<Seq<u8>>,
                ReadError<E>,
            >(response@),
            Err(e) => response_of::<E>(packet@, packet_id) == Err::<Response<Seq<u8>>, ReadError<E>>(
                e,
            ),
        },
{
    match InvalidParameterCount::check_min(packet.len(), PACKET_ERROR + 1) {
        Err(e) => {
            return Err(ReadError::InvalidMessage(InvalidMessage::InvalidParameterCount(e)));
        },
        Ok(()) => {},
    }
    let motor_id = packet[PACKET_ID];
    let status = packet[PACKET_ERROR];
    match InvalidPacketId::check(motor_id, packet_id) {
        Err(e) => {
            return Err(ReadError::InvalidMessage(InvalidMessage::InvalidPacketId(e)));
        },
        Ok(()) => {},
    }
    proof {
        assert((status & 0b0111_1111u8) & 0b0111_1100u8 == status & 0b0111_1100u8)
            by (bit_vector);
    }
    match MotorError::check(Some(ErrorFlags::from_bits_truncate(status))) {
        Err(e) => {
            return Err(ReadError::MotorError(e));
        },
        Ok(()) => {},
    }
    let warning = match ErrorFlags::from_bits(status) {
        Some(flags) => {
            if flags.intersects(ErrorFlags::warnings()) {
                Some(flags)
            } else {
                None
            }
        },
        None => None,
    };
    let data = slice_subrange(packet, PACKET_ERROR + 1, packet.len());
    proof {
        assert(data@ =~= packet@.skip(PACKET_ERROR as int + 1));
    }
    Ok(Response { motor_id, warning, data })
}

} // verus!
