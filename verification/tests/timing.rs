use std::time::Duration;
use ww_bear::timing::{message_transfer_time, TransferTime};
use ww_bear::Bus;

fn duration(time: TransferTime) -> Duration {
    Duration::new(time.secs, time.nanos)
}

#[test]
fn eight_bytes_at_one_megabaud_take_80_microseconds() {
    let time = message_transfer_time(8, 1_000_000);
    assert_eq!(time, TransferTime { secs: 0, nanos: 80_000 });
    assert_eq!(duration(time), Duration::from_micros(80));
}

#[test]
fn ten_bytes_at_9600_baud_take_about_10_4_milliseconds() {
    let time = message_transfer_time(10, 9600);
    assert_eq!(time, TransferTime { secs: 0, nanos: 10_416_667 });
    let millis = duration(time).as_secs_f64() * 1000.0;
    assert!((millis - 10.4).abs() < 0.02);
}

#[test]
fn transfer_time_rounds_up() {
    assert_eq!(message_transfer_time(1, 3), TransferTime { secs: 3, nanos: 333_333_334 });
    assert_eq!(message_transfer_time(1, 7), TransferTime { secs: 1, nanos: 428_571_429 });
    assert_eq!(message_transfer_time(0, 9600), TransferTime { secs: 0, nanos: 0 });
}

#[test]
fn transfer_time_counts_whole_seconds() {
    assert_eq!(message_transfer_time(960, 9600), TransferTime { secs: 1, nanos: 0 });
    assert_eq!(message_transfer_time(10, 1), TransferTime { secs: 100, nanos: 0 });
    assert_eq!(
        message_transfer_time(u32::MAX, 1),
        TransferTime { secs: 42_949_672_950, nanos: 0 }
    );
}

#[test]
fn transfer_time_carries_a_full_second_of_nanoseconds() {
    // 4294967290 bits at 4294967291 bit/s: the rest rounds up to a whole second.
    let time = message_transfer_time(429_496_729, 4_294_967_291);
    assert_eq!(time, TransferTime { secs: 1, nanos: 0 });
}

#[test]
fn response_timeout_scales_with_size_and_baud_rate() {
    let fast = Bus::new(1_000_000);
    assert_eq!(fast.response_timeout(4), TransferTime { secs: 0, nanos: 1_040_000 });
    assert_eq!(fast.response_timeout(5), TransferTime { secs: 0, nanos: 1_050_000 });
    let slow = Bus::new(9600);
    assert_eq!(slow.response_timeout(5), TransferTime { secs: 0, nanos: 6_208_334 });
    assert_eq!(slow.response_timeout(0), TransferTime { secs: 0, nanos: 1_000_000 });
}
