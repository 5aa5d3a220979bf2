use pimad_edge::system::clock::{timestamp_of, ClockReading};

#[test]
fn timestamps_round_down_and_stay_in_range() {
    assert_eq!(timestamp_of(ClockReading::After { secs: 1_700_000_000, nanos: 999 }), 1_700_000_000);
    assert_eq!(timestamp_of(ClockReading::After { secs: 0, nanos: 0 }), 0);
    assert_eq!(timestamp_of(ClockReading::Before { secs: 5, nanos: 0 }), -5);
    assert_eq!(timestamp_of(ClockReading::Before { secs: 5, nanos: 1 }), -6);
    assert_eq!(timestamp_of(ClockReading::After { secs: u64::MAX, nanos: 0 }), i64::MAX);
    assert_eq!(timestamp_of(ClockReading::Before { secs: u64::MAX, nanos: 0 }), i64::MIN);
    assert_eq!(timestamp_of(ClockReading::Before { secs: 1u64 << 63, nanos: 0 }), i64::MIN);
}
