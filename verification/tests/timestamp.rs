use ascom_alpaca::timestamp::{format_timestamp, parse_timestamp, EpochOffset, Timestamp, TimestampError};

#[test]
fn timestamps_in_iso8601_form() {
    let text = format_timestamp(Timestamp { unix_nanos: 0 }).expect("in range");
    assert!(text.starts_with("1970-01-01T00:00:00"), "{text}");
    let t = parse_timestamp("2020-01-02T03:04:05").expect("a date and time");
    assert_eq!(t.unix_nanos, 1_577_934_245_000_000_000);
    assert_eq!(parse_timestamp("yesterday"), Err(TimestampError::Invalid));
    assert_eq!(format_timestamp(Timestamp { unix_nanos: i128::MAX }), Err(TimestampError::OutOfRange));
}

#[test]
fn instants_split_into_seconds_and_nanoseconds() {
    let after = Timestamp { unix_nanos: 1_500_000_002 }.epoch_offset();
    assert_eq!(after, EpochOffset { before_epoch: false, secs: 1, subsec_nanos: 500_000_002 });
    let before = Timestamp { unix_nanos: -2_000_000_001 }.epoch_offset();
    assert_eq!(before, EpochOffset { before_epoch: true, secs: 2, subsec_nanos: 1 });
    let earliest = Timestamp { unix_nanos: i128::MIN }.epoch_offset();
    assert!(earliest.before_epoch);
    assert_eq!(earliest.secs * 1_000_000_000 + earliest.subsec_nanos as u128, 1u128 << 127);
    assert_eq!(Timestamp { unix_nanos: 0 }.epoch_offset(), EpochOffset { before_epoch: false, secs: 0, subsec_nanos: 0 });
}

#[test]
fn instants_built_from_seconds_and_nanoseconds() {
    assert_eq!(Timestamp::from_epoch_offset(false, 1, 500_000_002), Timestamp { unix_nanos: 1_500_000_002 });
    assert_eq!(Timestamp::from_epoch_offset(true, 2, 1), Timestamp { unix_nanos: -2_000_000_001 });
    assert_eq!(Timestamp::from_epoch_offset(true, 0, 0), Timestamp { unix_nanos: 0 });
    let t = Timestamp { unix_nanos: -123_456_789_012 };
    let o = t.epoch_offset();
    assert_eq!(Timestamp::from_epoch_offset(o.before_epoch, o.secs as u64, o.subsec_nanos), t);
}
