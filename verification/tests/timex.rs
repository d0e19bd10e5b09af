use kabi::clock::{StatusCodes, Timex, TimexMode, TimexRaw};
use kabi::Timeval;

fn sample_record() -> Timex {
    Timex {
        modes: TimexMode::from_raw(0),
        offset: 1,
        freq: 2,
        maxerror: 3,
        esterror: 4,
        status: StatusCodes::from_raw(5),
        constant: 6,
        precision: 7,
        tolerance: 8,
        time: Timeval {
            tv_sec: 9,
            tv_usec: 10,
        },
        tick: 11,
        ppsfreq: 12,
        jitter: 13,
        shift: 14,
        stabil: 15,
        jitcnt: 16,
        calcnt: 17,
        errcnt: 18,
        stbcnt: 19,
        tai: 20,
    }
}

#[test]
fn test_mirror_round_trip() {
    // A no-op record (mode zero) with a distinct value in every field
    // survives the trip to the kernel mirror and back unchanged.
    let record = sample_record();
    let mirror = TimexRaw::from_timex(&record);
    assert_eq!(mirror.into_timex(), record);

    let dflt = Timex::default();
    let mirror = TimexRaw::from_timex(&dflt);
    assert_eq!(mirror.into_timex(), dflt);
}

#[test]
fn test_mirror_padding_zero() {
    let mut record = sample_record();
    record.modes.set(TimexMode::ADJ_OFFSET | TimexMode::ADJ_NANO);
    let mirror = TimexRaw::from_timex(&record);
    assert_eq!(mirror._pad, 0);
    assert_eq!(mirror._pad2, 0);
    assert_eq!(mirror._pad3, 0);
    assert_eq!(mirror.__reserved, [0u32; 11]);
    assert_eq!(mirror.modes, TimexMode::ADJ_OFFSET | TimexMode::ADJ_NANO);
    assert_eq!(mirror.offset, 1);
    assert_eq!(mirror.tai, 20);
}

#[test]
fn test_timex_mode_bits() {
    let mut modes = TimexMode::default();
    assert!(!modes.is_set(TimexMode::ADJ_OFFSET));
    modes.set(TimexMode::ADJ_OFFSET);
    modes.set(TimexMode::ADJ_TICK);
    assert!(modes.is_set(TimexMode::ADJ_OFFSET));
    assert!(modes.is_set(TimexMode::ADJ_TICK));
    assert!(modes.is_set(TimexMode::ADJ_OFFSET | TimexMode::ADJ_TICK));
    assert!(!modes.is_set(TimexMode::ADJ_FREQUENCY));
    assert_eq!(modes.as_raw(), 0x4001);
}

#[test]
fn test_status_codes_bits() {
    let mut status = StatusCodes::default();
    assert!(!status.is_set(StatusCodes::STA_PLL));
    status.set(StatusCodes::STA_PLL);
    status.set(StatusCodes::STA_NANO);
    assert!(status.is_set(StatusCodes::STA_PLL));
    assert!(status.is_set(StatusCodes::STA_NANO));
    assert!(!status.is_set(StatusCodes::STA_UNSYNC));
    assert_eq!(status.as_raw(), 0x2001);
}
