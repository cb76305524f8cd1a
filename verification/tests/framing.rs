use ww_bear::bus::{find_header, Bus};
use ww_bear::checksum::calculate_checksum;
use ww_bear::error::{BufferTooSmallError, InvalidChecksum, InvalidMessage, ReadError};
use ww_bear::ReadStep;

fn make(
    buffer: &mut [u8],
    motor_id: u8,
    instruction: u8,
    params: &[u8],
) -> Result<usize, BufferTooSmallError> {
    Bus::make_packet(buffer, motor_id, instruction, params.len(), |region: &mut [u8]| {
        region.copy_from_slice(params);
        Ok(())
    })
}

fn packet(motor_id: u8, instruction: u8, params: &[u8]) -> Vec<u8> {
    let mut buffer: Vec<u8> = vec![0; params.len() + 6];
    let len: usize = make(&mut buffer, motor_id, instruction, params).unwrap();
    assert_eq!(len, buffer.len());
    buffer
}

fn write<'a>(
    bus: &'a mut Bus,
    motor_id: u8,
    instruction: u8,
    params: &[u8],
) -> Result<&'a [u8], BufferTooSmallError> {
    bus.write_packet(motor_id, instruction, params.len(), |region: &mut [u8]| {
        region.copy_from_slice(params);
        Ok(())
    })
}

fn poll(bus: &mut Bus) -> Result<ReadStep, ReadError<()>> {
    bus.poll_packet::<()>()
}

#[test]
fn make_packet_lays_out_the_wire_format() {
    let mut buffer: [u8; 16] = [0xAA; 16];
    let len = make(&mut buffer, 2, 3, &[5, 0, 0, 48, 65]);
    assert_eq!(len, Ok(11));
    assert_eq!(&buffer[..11], &[255, 255, 2, 7, 3, 5, 0, 0, 48, 65, 125]);
    assert_eq!(&buffer[11..], &[0xAA; 5]);
}

#[test]
fn make_packet_without_parameters() {
    let mut buffer: [u8; 6] = [0; 6];
    assert_eq!(make(&mut buffer, 1, 1, &[]), Ok(6));
    assert_eq!(buffer, [0xFF, 0xFF, 0x01, 0x02, 0x01, 0xFB]);
}

#[test]
fn make_packet_refuses_a_buffer_that_is_too_small() {
    let mut buffer: [u8; 10] = [7; 10];
    assert_eq!(
        make(&mut buffer, 2, 3, &[5, 0, 0, 48, 65]),
        Err(BufferTooSmallError { required_size: 11, total_size: 10 })
    );
    assert_eq!(buffer, [7; 10]);
    let mut empty: [u8; 0] = [];
    assert_eq!(
        make(&mut empty, 2, 3, &[]),
        Err(BufferTooSmallError { required_size: 6, total_size: 0 })
    );
}

#[test]
fn make_packet_does_not_call_the_callback_where_the_buffer_is_too_small() {
    let mut buffer: [u8; 8] = [7; 8];
    let mut called: bool = false;
    let result = Bus::make_packet(&mut buffer, 2, 3, 3, |_region: &mut [u8]| {
        called = true;
        Ok(())
    });
    assert_eq!(result, Err(BufferTooSmallError { required_size: 9, total_size: 8 }));
    assert!(!called);
    assert_eq!(buffer, [7; 8]);
}

#[test]
fn make_packet_hands_the_callback_the_parameter_region() {
    let mut buffer: [u8; 12] = [0xAA; 12];
    let mut seen: Vec<u8> = Vec::new();
    let result = Bus::make_packet(&mut buffer, 2, 3, 4, |region: &mut [u8]| {
        seen.extend_from_slice(region);
        region[0] = 1;
        region[3] = 4;
        Ok(())
    });
    assert_eq!(result, Ok(10));
    assert_eq!(seen, vec![0xAA; 4]);
    assert_eq!(&buffer[..9], &[0xFF, 0xFF, 2, 6, 3, 1, 0xAA, 0xAA, 4]);
    assert_eq!(buffer[9], calculate_checksum(&[2, 6, 3, 1, 0xAA, 0xAA, 4]));
    assert_eq!(&buffer[10..], &[0xAA; 2]);
}

#[test]
fn make_packet_returns_the_error_of_the_callback() {
    let mut buffer: [u8; 12] = [0xAA; 12];
    let failure = BufferTooSmallError { required_size: 40, total_size: 4 };
    let result = Bus::make_packet(&mut buffer, 2, 3, 4, |region: &mut [u8]| {
        region[1] = 9;
        Err(failure)
    });
    assert_eq!(result, Err(failure));
    // The start of the packet was written, and no checksum.
    assert_eq!(buffer, [0xFF, 0xFF, 2, 6, 3, 0xAA, 9, 0xAA, 0xAA, 0xAA, 0xAA, 0xAA]);
}

#[test]
fn make_packet_fills_a_buffer_of_exactly_the_size() {
    let params: Vec<u8> = (0..122).collect();
    let mut buffer: Vec<u8> = vec![0; 128];
    assert_eq!(make(&mut buffer, 9, 5, &params), Ok(128));
    assert_eq!(buffer[3], 124);
    assert_eq!(&buffer[5..127], &params[..]);
    assert_eq!(buffer[127], calculate_checksum(&buffer[2..127]));
}

#[test]
fn the_checksum_of_a_packet_recomputes_to_its_last_byte() {
    let bytes = packet(0x11, 0x05, &[1, 2, 3, 250, 251, 252]);
    let last = bytes.len() - 1;
    assert_eq!(calculate_checksum(&bytes[2..last]), bytes[last]);
}

#[test]
fn find_header_finds_the_first_pair_of_header_bytes() {
    assert_eq!(find_header(&[0xFF, 0xFF, 1, 2]), 0);
    assert_eq!(find_header(&[1, 2, 3, 0xFF, 0xFF, 1, 2]), 3);
    assert_eq!(find_header(&[0xFF, 0, 0xFF, 0xFF]), 2);
    assert_eq!(find_header(&[0xFF, 0xFF, 0xFF, 0xFF]), 0);
}

#[test]
fn find_header_keeps_a_header_that_is_cut_by_the_end() {
    assert_eq!(find_header(&[1, 2, 0xFF]), 2);
    assert_eq!(find_header(&[0xFF]), 0);
    assert_eq!(find_header(&[0xFF, 1, 0xFF]), 2);
}

#[test]
fn find_header_returns_the_length_where_there_is_no_header() {
    assert_eq!(find_header(&[]), 0);
    assert_eq!(find_header(&[1, 2, 3]), 3);
    assert_eq!(find_header(&[0xFF, 1, 0xFF, 2]), 4);
}

#[test]
fn encoding_then_decoding_recovers_the_packet() {
    let params: [u8; 5] = [0x0D, 0x00, 0x00, 0xA0, 0x40];
    let bytes = packet(1, 5, &params);
    let mut bus = Bus::new(1_000_000);
    assert_eq!(bus.receive(&bytes), bytes.len());
    assert_eq!(poll(&mut bus).unwrap(), ReadStep { skipped: 0, packet_len: Some(10) });
    let decoded = bus.last_packet();
    assert_eq!(decoded, &bytes[..10]);
    assert_eq!(decoded[2], 1);
    assert_eq!(decoded[3], 7);
    assert_eq!(decoded[4], 5);
    assert_eq!(&decoded[5..], &params);
    assert_eq!(calculate_checksum(&decoded[2..]), bytes[10]);
}

#[test]
fn encoding_then_decoding_recovers_the_largest_packet_of_the_buffer() {
    let params: Vec<u8> = (0..122).map(|i: u8| i.wrapping_mul(7)).collect();
    let bytes = packet(200, 3, &params);
    assert_eq!(bytes.len(), 128);
    let mut bus = Bus::new(1_000_000);
    assert_eq!(bus.receive(&bytes), 128);
    assert_eq!(poll(&mut bus).unwrap(), ReadStep { skipped: 0, packet_len: Some(127) });
    assert_eq!(bus.last_packet(), &bytes[..127]);
    assert_eq!(&bus.last_packet()[5..], &params[..]);
}

#[test]
fn garbage_in_front_of_a_packet_is_skipped_and_counted() {
    let bytes = packet(1, 0, &[9, 8, 7, 6]);
    let mut stream: Vec<u8> = vec![1, 2, 0xFF, 3, 4];
    stream.extend_from_slice(&bytes);
    let mut bus = Bus::new(1_000_000);
    assert_eq!(bus.receive(&stream), stream.len());
    assert_eq!(poll(&mut bus).unwrap(), ReadStep { skipped: 5, packet_len: Some(9) });
    assert_eq!(bus.last_packet(), &bytes[..9]);
}

#[test]
fn no_garbage_means_nothing_skipped() {
    let bytes = packet(1, 0, &[]);
    let mut bus = Bus::new(1_000_000);
    bus.receive(&bytes);
    assert_eq!(poll(&mut bus).unwrap(), ReadStep { skipped: 0, packet_len: Some(5) });
    assert_eq!(bus.last_packet(), &[0xFF, 0xFF, 1, 2, 0]);
}

#[test]
fn remove_garbage_reports_the_garbage_and_keeps_what_follows() {
    let mut bus = Bus::new(1_000_000);
    bus.receive(&[5, 6, 7, 0xFF, 0xFF, 1]);
    assert_eq!(bus.remove_garbage(), 3);
    assert_eq!(bus.free_space(), 125);
    assert_eq!(bus.remove_garbage(), 0);
    assert_eq!(bus.free_space(), 125);
}

#[test]
fn garbage_alone_is_dropped() {
    let mut bus = Bus::new(1_000_000);
    bus.receive(&[1, 2, 3, 4, 5, 6, 7, 8]);
    assert_eq!(poll(&mut bus).unwrap(), ReadStep { skipped: 8, packet_len: None });
    assert_eq!(bus.free_space(), 128);
    assert_eq!(bus.last_packet(), &[] as &[u8]);
}

#[test]
fn a_header_split_over_two_reads_is_not_lost() {
    let bytes = packet(3, 0, &[1, 2]);
    let mut bus = Bus::new(1_000_000);
    bus.receive(&[9, 9, 0xFF]);
    assert_eq!(poll(&mut bus).unwrap(), ReadStep { skipped: 2, packet_len: None });
    assert_eq!(bus.free_space(), 127);
    bus.receive(&bytes[1..]);
    assert_eq!(poll(&mut bus).unwrap(), ReadStep { skipped: 0, packet_len: Some(7) });
    assert_eq!(bus.last_packet(), &bytes[..7]);
}

#[test]
fn a_packet_that_arrives_in_pieces_is_put_together() {
    let bytes = packet(3, 0, &[1, 2, 3, 4]);
    let mut bus = Bus::new(1_000_000);
    for (i, byte) in bytes.iter().enumerate() {
        assert_eq!(poll(&mut bus).unwrap(), ReadStep { skipped: 0, packet_len: None });
        assert_eq!(bus.receive(&[*byte]), 1);
        assert_eq!(bus.free_space(), 128 - i - 1);
    }
    assert_eq!(poll(&mut bus).unwrap(), ReadStep { skipped: 0, packet_len: Some(9) });
    assert_eq!(bus.last_packet(), &bytes[..9]);
}

#[test]
fn a_read_of_nothing_changes_nothing() {
    let mut bus = Bus::new(1_000_000);
    bus.receive(&[0xFF, 0xFF, 1]);
    assert_eq!(poll(&mut bus).unwrap(), ReadStep { skipped: 0, packet_len: None });
    assert_eq!(bus.receive(&[]), 0);
    assert_eq!(poll(&mut bus).unwrap(), ReadStep { skipped: 0, packet_len: None });
    assert_eq!(bus.free_space(), 125);
}

#[test]
fn two_packets_in_one_read_come_out_one_after_the_other() {
    let first = packet(1, 0, &[1, 1, 1, 1]);
    let second = packet(1, 2, &[2, 2, 2, 2]);
    let mut stream: Vec<u8> = first.clone();
    stream.extend_from_slice(&second);
    let mut bus = Bus::new(1_000_000);
    bus.receive(&stream);
    assert_eq!(poll(&mut bus).unwrap(), ReadStep { skipped: 0, packet_len: Some(9) });
    assert_eq!(bus.last_packet(), &first[..9]);
    // The first packet is still in the buffer, marked as used.
    assert_eq!(bus.free_space(), 128 - 20);
    assert_eq!(poll(&mut bus).unwrap(), ReadStep { skipped: 0, packet_len: Some(9) });
    assert_eq!(bus.last_packet(), &second[..9]);
    assert_eq!(bus.free_space(), 128 - 10);
    assert_eq!(poll(&mut bus).unwrap(), ReadStep { skipped: 0, packet_len: None });
    assert_eq!(bus.free_space(), 128);
    assert_eq!(bus.last_packet(), &[] as &[u8]);
}

#[test]
fn a_wrong_checksum_is_reported_and_only_that_message_is_dropped() {
    let mut broken = packet(1, 0, &[1, 2, 3, 4]);
    let good = packet(1, 0, &[5, 6, 7, 8]);
    let claimed: u8 = broken[9].wrapping_add(1);
    let computed: u8 = broken[9];
    broken[9] = claimed;
    let mut stream: Vec<u8> = broken.clone();
    stream.extend_from_slice(&good);
    let mut bus = Bus::new(1_000_000);
    bus.receive(&stream);
    match poll(&mut bus) {
        Err(ReadError::InvalidMessage(InvalidMessage::InvalidChecksum(e))) => {
            assert_eq!(e, InvalidChecksum { message: claimed, computed });
        },
        other => panic!("{:?}", other),
    }
    assert_eq!(bus.free_space(), 128 - 10);
    assert_eq!(bus.last_packet(), &[] as &[u8]);
    assert_eq!(poll(&mut bus).unwrap(), ReadStep { skipped: 0, packet_len: Some(9) });
    assert_eq!(bus.last_packet(), &good[..9]);
}

#[test]
fn a_message_larger_than_the_read_buffer_is_refused() {
    let mut bus = Bus::with_buffers_and_baud_rate(vec![0; 16], vec![0; 16], 1_000_000);
    bus.receive(&[0xFF, 0xFF, 1, 13]);
    match poll(&mut bus) {
        Err(ReadError::BufferFull(e)) => {
            assert_eq!(e, BufferTooSmallError { required_size: 17, total_size: 16 });
        },
        other => panic!("{:?}", other),
    }
    // Nothing was dropped: the caller has to come back with a larger buffer.
    assert_eq!(bus.free_space(), 12);
}

#[test]
fn a_message_that_just_fits_is_read() {
    let bytes = packet(1, 0, &[0; 10]);
    let mut bus = Bus::with_buffers_and_baud_rate(vec![0; 16], vec![0; 16], 1_000_000);
    assert_eq!(bus.receive(&bytes), 16);
    assert_eq!(bus.free_space(), 0);
    assert_eq!(poll(&mut bus).unwrap(), ReadStep { skipped: 0, packet_len: Some(15) });
}

#[test]
fn a_read_buffer_below_the_smallest_packet_is_refused() {
    let mut bus = Bus::with_buffers_and_baud_rate(vec![0; 5], vec![0; 16], 1_000_000);
    match poll(&mut bus) {
        Err(ReadError::BufferFull(e)) => {
            assert_eq!(e, BufferTooSmallError { required_size: 6, total_size: 5 });
        },
        other => panic!("{:?}", other),
    }
}

#[test]
fn the_length_byte_is_read_as_soon_as_four_bytes_are_there() {
    let mut bus = Bus::with_buffers_and_baud_rate(vec![0; 8], vec![0; 8], 1_000_000);
    bus.receive(&[0xFF, 0xFF, 1]);
    assert_eq!(poll(&mut bus).unwrap(), ReadStep { skipped: 0, packet_len: None });
    bus.receive(&[200]);
    assert!(matches!(
        poll(&mut bus),
        Err(ReadError::BufferFull(BufferTooSmallError { required_size: 204, total_size: 8 }))
    ));
}

#[test]
fn receive_takes_no_more_than_there_is_room_for() {
    let mut bus = Bus::with_buffers_and_baud_rate(vec![0; 8], vec![0; 8], 1_000_000);
    assert_eq!(bus.capacity(), 8);
    assert_eq!(bus.free_space(), 8);
    assert_eq!(bus.receive(&[0xFF, 0xFF, 1, 4, 0]), 5);
    assert_eq!(bus.free_space(), 3);
    assert_eq!(bus.receive(&[1, 2, 3, 4, 5]), 3);
    assert_eq!(bus.free_space(), 0);
    assert_eq!(bus.receive(&[9]), 0);
    let expected_checksum: u8 = calculate_checksum(&[1, 4, 0, 1, 2]);
    match poll(&mut bus) {
        Err(ReadError::InvalidMessage(InvalidMessage::InvalidChecksum(e))) => {
            assert_eq!(e, InvalidChecksum { message: 3, computed: expected_checksum });
        },
        other => panic!("{:?}", other),
    }
}

#[test]
fn writing_a_packet_forgets_what_was_read() {
    let mut bus = Bus::new(1_000_000);
    bus.receive(&packet(1, 0, &[1, 2, 3, 4]));
    assert_eq!(poll(&mut bus).unwrap(), ReadStep { skipped: 0, packet_len: Some(9) });
    let sent: Vec<u8> = write(&mut bus, 1, 1, &[]).unwrap().to_vec();
    assert_eq!(sent, vec![0xFF, 0xFF, 1, 2, 1, 0xFB]);
    assert_eq!(bus.free_space(), 128);
    assert_eq!(bus.last_packet(), &[] as &[u8]);
    assert_eq!(poll(&mut bus).unwrap(), ReadStep { skipped: 0, packet_len: None });
}

#[test]
fn a_packet_that_does_not_fit_the_write_buffer_leaves_the_bus_alone() {
    let mut bus = Bus::with_buffers_and_baud_rate(vec![0; 16], vec![0; 8], 1_000_000);
    bus.receive(&[0xFF, 0xFF, 1]);
    assert_eq!(
        write(&mut bus, 1, 5, &[1, 2, 3]),
        Err(BufferTooSmallError { required_size: 9, total_size: 8 })
    );
    assert_eq!(bus.free_space(), 13);
    assert_eq!(write(&mut bus, 1, 5, &[1, 2]).map(|p| p.len()), Ok(8));
    assert_eq!(bus.free_space(), 16);
}

#[test]
fn a_callback_that_fails_keeps_what_was_read() {
    let mut bus = Bus::new(1_000_000);
    bus.receive(&[0xFF, 0xFF, 1]);
    let failure = BufferTooSmallError { required_size: 5, total_size: 4 };
    let result = bus.write_packet(1, 5, 4, |_region: &mut [u8]| Err(failure));
    assert_eq!(result, Err(failure));
    assert_eq!(bus.free_space(), 125);
}

#[test]
fn the_baud_rate_is_kept_and_can_be_changed() {
    let mut bus = Bus::new(9600);
    assert_eq!(bus.baud_rate(), 9600);
    assert_eq!(bus.capacity(), 128);
    bus.receive(&[0xFF, 0xFF]);
    bus.set_baud_rate(115_200);
    assert_eq!(bus.baud_rate(), 115_200);
    assert_eq!(bus.free_space(), 126);
}
