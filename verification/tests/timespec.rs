use kabi::TimeSpec;

#[test]
fn test_nanos() {
    assert_eq!(
        TimeSpec::nanoseconds(0),
        TimeSpec {
            tv_sec: 0,
            tv_nsec: 0
        }
    );
    assert_eq!(
        TimeSpec::nanoseconds(-0),
        TimeSpec {
            tv_sec: 0,
            tv_nsec: 0
        }
    );

    assert_eq!(
        TimeSpec::nanoseconds(1_000_000_000),
        TimeSpec {
            tv_sec: 1,
            tv_nsec: 0
        }
    );
    assert_eq!(
        TimeSpec::nanoseconds(999_999_999),
        TimeSpec {
            tv_sec: 0,
            tv_nsec: 999_999_999
        }
    );
    assert_eq!(
        TimeSpec::nanoseconds(1_999_999_999),
        TimeSpec {
            tv_sec: 1,
            tv_nsec: 999_999_999
        }
    );

    assert_eq!(
        TimeSpec::nanoseconds(-1_999_999_999),
        TimeSpec {
            tv_sec: -1,
            tv_nsec: -999_999_999
        }
    );
}

#[test]
fn test_ops() {
    assert_eq!(
        TimeSpec::nanoseconds(1_999_999_999).plus(TimeSpec::nanoseconds(1)),
        TimeSpec::seconds(2)
    );
    assert_eq!(
        TimeSpec::nanoseconds(1_999_999_999).minus(TimeSpec::nanoseconds(1)),
        TimeSpec::nanoseconds(1_999_999_998)
    );
    assert_eq!(
        TimeSpec::seconds(1).minus(TimeSpec::nanoseconds(1_999_999_999)),
        TimeSpec::nanoseconds(-999_999_999)
    );
    assert_eq!(
        TimeSpec::nanoseconds(1_999_999_999).multiply_by(2),
        TimeSpec::nanoseconds(3_999_999_998)
    );
    assert_eq!(
        TimeSpec::seconds(3).divide_by(2),
        TimeSpec::nanoseconds(1_500_000_000)
    );
}

#[test]
fn test_nanos_round_trip() {
    let values: [i64; 9] = [
        0,
        1,
        -1,
        999_999_999,
        -999_999_999,
        1_999_999_999,
        -1_999_999_999,
        i64::MAX,
        i64::MIN,
    ];
    for n in values {
        assert_eq!(TimeSpec::nanoseconds(n).as_nanoseconds(), n);
        assert_eq!(TimeSpec::nanoseconds(n).as_nanoseconds_i128(), n as i128);
    }
}

#[test]
fn test_plus_then_minus() {
    let a = TimeSpec::nanoseconds(-1_234_567_890);
    let b = TimeSpec::nanoseconds(987_654_321);
    assert_eq!(a.plus(b).minus(b), a);
    let c = TimeSpec::seconds(5);
    let d = TimeSpec::nanoseconds(-42);
    assert_eq!(c.plus(d).minus(d), c);
}

#[test]
fn test_factories() {
    assert_eq!(
        TimeSpec::seconds(-3),
        TimeSpec {
            tv_sec: -3,
            tv_nsec: 0
        }
    );
    // The sub-second remainder of the split is scaled to nanoseconds.
    assert_eq!(
        TimeSpec::milliseconds(1_500),
        TimeSpec {
            tv_sec: 1,
            tv_nsec: 500_000_000
        }
    );
    assert_eq!(
        TimeSpec::milliseconds(-1_500),
        TimeSpec {
            tv_sec: -1,
            tv_nsec: -500_000_000
        }
    );
    assert_eq!(
        TimeSpec::microseconds(2_750_001),
        TimeSpec {
            tv_sec: 2,
            tv_nsec: 750_001_000
        }
    );
    // Reading the value back in the source unit returns the argument.
    assert_eq!(TimeSpec::milliseconds(1_500).as_milliseconds(), 1_500);
    assert_eq!(TimeSpec::milliseconds(-1_500).as_milliseconds(), -1_500);
    assert_eq!(TimeSpec::microseconds(2_750_001).as_microseconds(), 2_750_001);
    assert_eq!(TimeSpec::microseconds(-999_999).as_microseconds(), -999_999);
    assert_eq!(TimeSpec::new(), TimeSpec::zeroed());
    assert_eq!(
        TimeSpec::default(),
        TimeSpec {
            tv_sec: 0,
            tv_nsec: 0
        }
    );
}

#[test]
fn test_accessors() {
    let ts = TimeSpec {
        tv_sec: 1,
        tv_nsec: 500_000_000,
    };
    assert_eq!(ts.as_microseconds(), 1_500_000);
    assert_eq!(ts.as_milliseconds(), 1_500);
    let neg = TimeSpec {
        tv_sec: -1,
        tv_nsec: -999_999_999,
    };
    assert_eq!(neg.as_microseconds(), -1_999_999);
    assert_eq!(neg.as_milliseconds(), -1_999);
}

#[test]
fn test_negate() {
    assert_eq!(
        TimeSpec::nanoseconds(1_999_999_999).negate(),
        TimeSpec::nanoseconds(-1_999_999_999)
    );
    assert_eq!(TimeSpec::nanoseconds(0).negate(), TimeSpec::zeroed());
}

#[test]
fn test_divide_negative() {
    assert_eq!(
        TimeSpec::seconds(3).divide_by(-2),
        TimeSpec::nanoseconds(-1_500_000_000)
    );
    assert_eq!(
        TimeSpec::nanoseconds(-7).divide_by(2),
        TimeSpec::nanoseconds(-3)
    );
}
