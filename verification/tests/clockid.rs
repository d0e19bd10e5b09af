use kabi::clock::ClockId;

#[test]
fn test_clock_id_round_trip() {
    let all = [
        ClockId::ClockRealtime,
        ClockId::ClockRealtimeAlarm,
        ClockId::ClockRealtimeCoarse,
        ClockId::ClockTai,
        ClockId::ClockMonotonic,
        ClockId::ClockMonotonicCoarse,
        ClockId::ClockMonotonicRaw,
        ClockId::ClockBoottime,
        ClockId::ClockBoottimeAlarm,
        ClockId::ClockProcessCputimeId,
        ClockId::ClockThreadCputimeId,
    ];
    for c in all {
        assert_eq!(ClockId::from_raw(c.as_raw()), Some(c));
    }
}

#[test]
fn test_clock_id_raw_values() {
    assert_eq!(ClockId::ClockRealtime.as_raw(), 0);
    assert_eq!(ClockId::ClockMonotonic.as_raw(), 1);
    assert_eq!(ClockId::ClockProcessCputimeId.as_raw(), 2);
    assert_eq!(ClockId::ClockThreadCputimeId.as_raw(), 3);
    assert_eq!(ClockId::ClockMonotonicRaw.as_raw(), 4);
    assert_eq!(ClockId::ClockRealtimeCoarse.as_raw(), 5);
    assert_eq!(ClockId::ClockMonotonicCoarse.as_raw(), 6);
    assert_eq!(ClockId::ClockBoottime.as_raw(), 7);
    assert_eq!(ClockId::ClockRealtimeAlarm.as_raw(), 8);
    assert_eq!(ClockId::ClockBoottimeAlarm.as_raw(), 9);
    assert_eq!(ClockId::ClockTai.as_raw(), 11);
}

#[test]
fn test_clock_id_unrecognized() {
    // The retired placeholder identifier between the alarm clocks and
    // the atomic-time clock is not recognized, nor is anything outside
    // the defined range.
    assert_eq!(ClockId::from_raw(10), None);
    assert_eq!(ClockId::from_raw(12), None);
    assert_eq!(ClockId::from_raw(-1), None);
    assert_eq!(ClockId::from_raw(i32::MAX), None);
    assert_eq!(ClockId::from_raw(i32::MIN), None);
}
