use ww_bear::bus::Bus;
use ww_bear::error::{
    ExpectedCount, InvalidMessage, InvalidPacketId, InvalidParameterCount, MotorError, ReadError,
};
use ww_bear::protocol::response::parse_response;
use ww_bear::{ConfigRegister, ErrorFlags, ReadStep, Response, StatusRegister};

fn response_bytes(motor_id: u8, status: u8, data: &[u8]) -> Vec<u8> {
    let mut buffer: Vec<u8> = vec![0; data.len() + 6];
    Bus::make_packet(&mut buffer, motor_id, status, data.len(), |region: &mut [u8]| {
        region.copy_from_slice(data);
        Ok(())
    })
    .unwrap();
    buffer
}

fn bus_with_response(motor_id: u8, status: u8, data: &[u8]) -> Bus {
    let mut bus = Bus::new(1_000_000);
    let bytes = response_bytes(motor_id, status, data);
    assert_eq!(bus.receive(&bytes), bytes.len());
    assert_eq!(
        bus.poll_packet::<()>().unwrap(),
        ReadStep { skipped: 0, packet_len: Some(data.len() + 5) }
    );
    bus
}

fn parse(packet: &[u8], packet_id: u8) -> Result<Response<&[u8]>, ReadError<()>> {
    parse_response::<()>(packet, packet_id)
}

#[test]
fn a_clean_response_has_no_warning() {
    let bus = bus_with_response(1, 0, &[1, 2, 3, 4]);
    let response = bus.read_response::<()>(1).unwrap();
    assert_eq!(response, Response { motor_id: 1, warning: None, data: &[1u8, 2, 3, 4][..] });
}

#[test]
fn the_communication_warning_is_passed_on() {
    let bus = bus_with_response(1, 0b0000_0001, &[1, 2, 3, 4]);
    let response = bus.read_response::<()>(1).unwrap();
    assert_eq!(response.motor_id, 1);
    assert_eq!(response.warning, Some(ErrorFlags::communication()));
    assert_eq!(response.data, &[1, 2, 3, 4]);
}

#[test]
fn both_warnings_are_passed_on() {
    let bus = bus_with_response(1, 0b0000_0011, &[]);
    let response = bus.read_response::<()>(1).unwrap();
    assert_eq!(response.warning, Some(ErrorFlags::warnings()));
    assert_eq!(response.data, &[] as &[u8]);
    let bus = bus_with_response(1, 0b0000_0010, &[]);
    assert_eq!(bus.read_response::<()>(1).unwrap().warning, Some(ErrorFlags::overheat()));
}

#[test]
fn a_hardware_error_is_a_failure() {
    let bus = bus_with_response(1, 0b0010_0000, &[1, 2, 3, 4]);
    match bus.read_response::<()>(1) {
        Err(ReadError::MotorError(e)) => {
            assert_eq!(e, MotorError { flags: ErrorFlags::hardware() });
        },
        other => panic!("{:?}", other),
    }
}

#[test]
fn an_error_beside_a_warning_is_a_failure_that_holds_both() {
    let bus = bus_with_response(1, 0b0010_0001, &[1, 2, 3, 4]);
    let flags = ErrorFlags::hardware().union(ErrorFlags::communication());
    match bus.read_response::<()>(1) {
        Err(ReadError::MotorError(e)) => assert_eq!(e, MotorError { flags }),
        other => panic!("{:?}", other),
    }
}

#[test]
fn every_error_flag_is_a_failure() {
    for bit in 2u8..7 {
        let status: u8 = 1 << bit;
        let packet = [0xFF, 0xFF, 9, 2, status];
        match parse(&packet, 9) {
            Err(ReadError::MotorError(e)) => {
                assert_eq!(e.flags, ErrorFlags::from_bits(status).unwrap());
            },
            other => panic!("{:?}", other),
        }
    }
}

#[test]
fn the_unknown_bit_alone_is_no_failure() {
    for status in [0x80u8, 0x81, 0x82, 0x83] {
        let packet = [0xFF, 0xFF, 9, 3, status, 7];
        let response = parse(&packet, 9).unwrap();
        assert_eq!(response, Response { motor_id: 9, warning: None, data: &[7u8][..] });
    }
}

#[test]
fn an_error_flag_beside_the_unknown_bit_is_a_failure() {
    for (status, known) in [(0xA0u8, 0x20u8), (0xFF, 0x7F), (0x84, 0x04), (0xC1, 0x41), (0xFC, 0x7C)] {
        let packet = [0xFF, 0xFF, 9, 3, status, 7];
        match parse(&packet, 9) {
            Err(ReadError::MotorError(e)) => {
                assert_eq!(e, MotorError { flags: ErrorFlags::from_bits(known).unwrap() });
            },
            other => panic!("{:?}", other),
        }
    }
}

#[test]
fn every_status_byte_with_an_error_bit_is_a_failure() {
    for status in 0u8..=255 {
        let packet = [0xFF, 0xFF, 9, 2, status];
        let result = parse(&packet, 9);
        if status & 0b0111_1100 != 0 {
            match result {
                Err(ReadError::MotorError(e)) => assert_eq!(e.flags.bits(), status & 0x7F),
                other => panic!("{:#04X}: {:?}", status, other),
            }
        } else {
            let warning = if status < 0x80 && status & 0b11 != 0 {
                ErrorFlags::from_bits(status)
            } else {
                None
            };
            assert_eq!(result.unwrap(), Response { motor_id: 9, warning, data: &[][..] });
        }
    }
}

#[test]
fn a_ping_reply_with_a_fault_beside_the_unknown_bit_is_a_failure() {
    let mut bus = Bus::new(1_000_000);
    bus.ping(1).unwrap();
    assert_eq!(bus.receive(&[0xFF, 0xFF, 0x01, 0x02, 0xA0, 0x5C]), 6);
    assert_eq!(bus.poll_packet::<()>().unwrap(), ReadStep { skipped: 0, packet_len: Some(5) });
    match bus.read_response::<()>(1) {
        Err(ReadError::MotorError(e)) => {
            assert_eq!(e, MotorError { flags: ErrorFlags::hardware() });
        },
        other => panic!("{:?}", other),
    }
}

#[test]
fn a_packet_that_ends_before_its_status_byte_is_an_invalid_message() {
    let cases: [&[u8]; 5] = [&[], &[0xFF], &[0xFF, 0xFF], &[0xFF, 0xFF, 1], &[0xFF, 0xFF, 1, 1]];
    for packet in cases {
        match parse(packet, 1) {
            Err(ReadError::InvalidMessage(InvalidMessage::InvalidParameterCount(e))) => {
                assert_eq!(
                    e,
                    InvalidParameterCount { actual: packet.len(), expected: ExpectedCount::Min(5) }
                );
            },
            other => panic!("{:?}", other),
        }
    }
}

#[test]
fn a_message_with_a_length_byte_below_two_is_an_invalid_message() {
    // Length byte 0: the message is the four header bytes, the last of which
    // stands where the checksum is looked for.
    let mut bus = Bus::new(1_000_000);
    assert_eq!(bus.receive(&[0xFF, 0xFF, 0xFF, 0x00, 0x00]), 5);
    assert_eq!(bus.poll_packet::<()>().unwrap(), ReadStep { skipped: 0, packet_len: Some(3) });
    assert_eq!(bus.last_packet(), &[0xFF, 0xFF, 0xFF]);
    let expected = InvalidParameterCount { actual: 3, expected: ExpectedCount::Min(5) };
    match bus.read_response::<()>(0xFF) {
        Err(ReadError::InvalidMessage(InvalidMessage::InvalidParameterCount(e))) => {
            assert_eq!(e, expected);
        },
        other => panic!("{:?}", other),
    }
    match bus.read_value::<ConfigRegister, ()>(0xFF) {
        Err(ReadError::InvalidMessage(InvalidMessage::InvalidParameterCount(e))) => {
            assert_eq!(e, expected);
        },
        other => panic!("{:?}", other),
    }

    // Length byte 1.
    let mut bus = Bus::new(1_000_000);
    assert_eq!(bus.receive(&[0xFF, 0xFF, 0x01, 0x01, 0xFD]), 5);
    assert_eq!(bus.poll_packet::<()>().unwrap(), ReadStep { skipped: 0, packet_len: Some(4) });
    match bus.read_response::<()>(1) {
        Err(ReadError::InvalidMessage(InvalidMessage::InvalidParameterCount(e))) => {
            assert_eq!(e, InvalidParameterCount { actual: 4, expected: ExpectedCount::Min(5) });
        },
        other => panic!("{:?}", other),
    }
}

#[test]
fn no_packet_is_no_response() {
    let bus = Bus::new(1_000_000);
    match bus.read_response::<()>(1) {
        Err(ReadError::InvalidMessage(InvalidMessage::InvalidParameterCount(e))) => {
            assert_eq!(e, InvalidParameterCount { actual: 0, expected: ExpectedCount::Min(5) });
        },
        other => panic!("{:?}", other),
    }
}

#[test]
fn a_response_from_another_motor_is_refused() {
    let bus = bus_with_response(2, 0, &[1, 2, 3, 4]);
    match bus.read_response::<()>(1) {
        Err(ReadError::InvalidMessage(InvalidMessage::InvalidPacketId(e))) => {
            assert_eq!(e, InvalidPacketId { actual: 2, expected: Some(1) });
        },
        other => panic!("{:?}", other),
    }
}

#[test]
fn the_packet_id_is_checked_before_the_status() {
    let packet = [0xFF, 0xFF, 2, 2, 0b0010_0000];
    assert!(matches!(
        parse(&packet, 1),
        Err(ReadError::InvalidMessage(InvalidMessage::InvalidPacketId(_)))
    ));
}

#[test]
fn the_data_is_what_follows_the_status_byte() {
    let packet = [0xFF, 0xFF, 5, 2, 0];
    assert_eq!(parse(&packet, 5).unwrap().data, &[] as &[u8]);
    let packet = [0xFF, 0xFF, 5, 5, 0, 10, 20, 30];
    assert_eq!(parse(&packet, 5).unwrap().data, &[10, 20, 30]);
}

#[test]
fn the_value_of_a_register_is_decoded() {
    let bus = bus_with_response(1, 0, &5.0f32.to_le_bytes());
    let response = bus.read_value::<ConfigRegister, ()>(1).unwrap();
    assert_eq!(response, Response { motor_id: 1, warning: None, data: 0x40A0_0000 });
    assert_eq!(f32::from_bits(response.data), 5.0);
    let bus = bus_with_response(3, 0b0000_0010, &[1, 0, 0, 0]);
    let response = bus.read_value::<StatusRegister, ()>(3).unwrap();
    assert_eq!(
        response,
        Response { motor_id: 3, warning: Some(ErrorFlags::overheat()), data: 1 }
    );
}

#[test]
fn a_value_of_the_wrong_size_is_an_invalid_message() {
    for len in [0usize, 3, 5] {
        let data: Vec<u8> = vec![0; len];
        let bus = bus_with_response(1, 0, &data);
        match bus.read_value::<ConfigRegister, ()>(1) {
            Err(ReadError::InvalidMessage(InvalidMessage::InvalidParameterCount(e))) => {
                assert_eq!(
                    e,
                    InvalidParameterCount { actual: len, expected: ExpectedCount::Exact(4) }
                );
            },
            other => panic!("{:?}", other),
        }
    }
}

#[test]
fn reading_a_value_fails_as_reading_the_response_does() {
    let bus = bus_with_response(2, 0, &[0; 4]);
    assert!(matches!(
        bus.read_value::<ConfigRegister, ()>(1),
        Err(ReadError::InvalidMessage(InvalidMessage::InvalidPacketId(_)))
    ));
    let bus = bus_with_response(1, 0b0100_0000, &[0; 4]);
    match bus.read_value::<ConfigRegister, ()>(1) {
        Err(ReadError::MotorError(e)) => {
            assert_eq!(e, MotorError { flags: ErrorFlags::initialization() });
        },
        other => panic!("{:?}", other),
    }
}

#[test]
fn a_whole_exchange() {
    let mut bus = Bus::new(1_000_000);
    let transfer = bus.read(1, &StatusRegister::PresentPos).unwrap();
    assert_eq!(transfer.packet, &[0xFF, 0xFF, 0x01, 0x03, 0x02, 0x09, 0xF0]);
    let expected: u8 = transfer.response_parameters;
    assert_eq!(bus.response_timeout(expected).nanos, 1_050_000);

    // Line noise, then the reply in two reads.
    let reply = response_bytes(1, 0, &1.5f32.to_le_bytes());
    assert_eq!(bus.poll_packet::<()>().unwrap(), ReadStep { skipped: 0, packet_len: None });
    let mut first: Vec<u8> = vec![0x00, 0x17];
    first.extend_from_slice(&reply[..4]);
    bus.receive(&first);
    assert_eq!(bus.poll_packet::<()>().unwrap(), ReadStep { skipped: 2, packet_len: None });
    bus.receive(&reply[4..]);
    assert_eq!(bus.poll_packet::<()>().unwrap(), ReadStep { skipped: 0, packet_len: Some(9) });
    let response = bus.read_value::<StatusRegister, ()>(1).unwrap();
    assert_eq!(f32::from_bits(response.data), 1.5);
    assert_eq!(response.warning, None);
}
