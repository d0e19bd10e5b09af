//! Time values with nanosecond resolution.
//!
//! [`TimeSpec`] is a (seconds, nanoseconds) pair.  Every factory and
//! every arithmetic operation produces the unique representation given
//! by truncating division of the total nanosecond count: for a negative
//! total both components are non-positive (for example a total of
//! -1_999_999_999 gives seconds -1 and nanoseconds -999_999_999), and
//! `seconds * 1_000_000_000 + nanoseconds` always reconstructs the
//! total exactly.

use vstd::prelude::*;

verus! {

use vstd::arithmetic::div_mod::lemma_fundamental_div_mod;

/// Nanoseconds in one second.
pub const NANOS_PER_SEC: i64 = 1_000_000_000;

/// Truncating (round toward zero) integer division, the rule Rust's
/// `/` operator follows on signed integers.
pub open spec fn tdiv(n: int, d: int) -> int {
    if n >= 0 {
        n / d
    } else {
        -((-n) / d)
    }
}

/// Remainder matching [`tdiv`], the rule Rust's `%` operator follows
/// on signed integers: `tdiv(n, d) * d + tmod(n, d) == n`.
pub open spec fn tmod(n: int, d: int) -> int {
    n - d * tdiv(n, d)
}

/// Time in seconds and microseconds, as the kernel's `timeval`.
#[derive(Debug, PartialEq, Eq, Clone, Copy)]
pub struct Timeval {
    /// Seconds
    pub tv_sec: i64,
    /// Microseconds
    pub tv_usec: i64,
}

/// Time in seconds and nanoseconds, as the kernel's `timespec`.
/// The value is normalized when [`TimeSpec::tv_nsec`] lies in
/// [-999_999_999, 999_999_999] with the same sign as the total.
#[derive(Debug, PartialEq, Eq, Clone, Copy)]
pub struct TimeSpec {
    /// Seconds
    pub tv_sec: i64,
    /// Nanoseconds
    pub tv_nsec: i64,
}

impl TimeSpec {
    /// The total length of this value in nanoseconds, as a
    /// mathematical integer.
    pub open spec fn total_nanos(self) -> int {
        self.tv_sec * NANOS_PER_SEC + self.tv_nsec
    }

    /// The unique truncated form holding a given total: seconds are
    /// the total divided by 1_000_000_000 rounding toward zero, and
    /// nanoseconds are the remainder, carrying the sign of the total.
    pub open spec fn from_total_nanos(n: int) -> TimeSpec {
        TimeSpec {
            tv_sec: tdiv(n, NANOS_PER_SEC as int) as i64,
            tv_nsec: tmod(n, NANOS_PER_SEC as int) as i64,
        }
    }

    /// Whether this value is in the truncated form its own total
    /// produces; every factory and arithmetic result is.
    pub open spec fn is_reduced(self) -> bool {
        Self::from_total_nanos(self.total_nanos()) == self
    }

    /// Whether reading this value out as a single 64-bit nanosecond
    /// count stays within the machine range, intermediate product
    /// included.
    pub open spec fn nanos_in_range(self) -> bool {
        &&& i64::MIN <= self.tv_sec * NANOS_PER_SEC <= i64::MAX
        &&& i64::MIN <= self.total_nanos() <= i64::MAX
    }

    /// The total length of this value in whole microseconds, the
    /// sub-microsecond part of `tv_nsec` truncated toward zero.
    pub open spec fn total_micros(self) -> int {
        self.tv_sec * 1_000_000 + tdiv(self.tv_nsec as int, 1_000)
    }

    /// The total length of this value in whole milliseconds, the
    /// sub-millisecond part of `tv_nsec` truncated toward zero.
    pub open spec fn total_millis(self) -> int {
        self.tv_sec * 1_000 + tdiv(self.tv_nsec as int, 1_000_000)
    }

    /// A zero time value.
    pub fn new() -> (r: Self)
        ensures
            r.tv_sec == 0 && r.tv_nsec == 0,
            r.is_reduced(),
            r.nanos_in_range(),
    {
        Self::zeroed()
    }

    /// A zero time value.
    pub fn zeroed() -> (r: Self)
        ensures
            r.tv_sec == 0 && r.tv_nsec == 0,
            r.is_reduced(),
            r.nanos_in_range(),
    {
        Self { tv_sec: 0, tv_nsec: 0 }
    }

    /// The value of `seconds` whole seconds.
    pub fn seconds(seconds: i64) -> (r: TimeSpec)
        ensures
            r.tv_sec == seconds && r.tv_nsec == 0,
            r.total_nanos() == seconds * NANOS_PER_SEC,
            r.is_reduced(),
    {
        let r = TimeSpec { tv_sec: seconds, tv_nsec: 0 };
        proof {
            vstd::arithmetic::div_mod::lemma_div_multiples_vanish(
                seconds as int,
                NANOS_PER_SEC as int,
            );
            vstd::arithmetic::div_mod::lemma_div_multiples_vanish(
                -(seconds as int),
                NANOS_PER_SEC as int,
            );
        }
        r
    }

    /// The value whose total length is `milliseconds` milliseconds:
    /// the whole seconds land in `tv_sec` and the sub-second remainder,
    /// scaled to nanoseconds, in `tv_nsec`, both truncated toward zero.
    pub fn milliseconds(milliseconds: i64) -> (r: Self)
        ensures
            r.tv_sec == tdiv(milliseconds as int, 1_000),
            r.tv_nsec == tmod(milliseconds as int, 1_000) * 1_000_000,
            r.total_nanos() == milliseconds * 1_000_000,
            r.is_reduced(),
            i64::MIN <= milliseconds * 1_000_000 <= i64::MAX ==> r.nanos_in_range(),
    {
        let sec: i64 = milliseconds / 1_000;
        let nsec: i64 = (milliseconds % 1_000) * 1_000_000;
        proof {
            lemma_rescale_split(milliseconds as int, 1_000, 1_000_000);
        }
        Self { tv_sec: sec, tv_nsec: nsec }
    }

    /// The value whose total length is `microseconds` microseconds:
    /// the whole seconds land in `tv_sec` and the sub-second remainder,
    /// scaled to nanoseconds, in `tv_nsec`, both truncated toward zero.
    pub fn microseconds(microseconds: i64) -> (r: Self)
        ensures
            r.tv_sec == tdiv(microseconds as int, 1_000_000),
            r.tv_nsec == tmod(microseconds as int, 1_000_000) * 1_000,
            r.total_nanos() == microseconds * 1_000,
            r.is_reduced(),
            i64::MIN <= microseconds * 1_000 <= i64::MAX ==> r.nanos_in_range(),
    {
        let sec: i64 = microseconds / 1_000_000;
        let nsec: i64 = (microseconds % 1_000_000) * 1_000;
        proof {
            lemma_rescale_split(microseconds as int, 1_000_000, 1_000);
        }
        Self { tv_sec: sec, tv_nsec: nsec }
    }

    /// The value whose total length is `nanoseconds`, in truncated
    /// form: both components carry the sign of the argument.
    pub fn nanoseconds(nanoseconds: i64) -> (r: Self)
        ensures
            r == Self::from_total_nanos(nanoseconds as int),
            r.total_nanos() == nanoseconds as int,
            r.is_reduced(),
            r.nanos_in_range(),
    {
        let sec: i64 = nanoseconds / NANOS_PER_SEC;
        let nsec: i64 = nanoseconds % NANOS_PER_SEC;
        Self { tv_sec: sec, tv_nsec: nsec }
    }

    /// The total length in nanoseconds as an `i64`.
    pub fn as_nanoseconds(&self) -> (r: i64)
        requires
            self.nanos_in_range(),
        ensures
            r == self.total_nanos(),
    {
        self.tv_sec * NANOS_PER_SEC + self.tv_nsec
    }

    /// The total length in nanoseconds, widened to 128 bits so that
    /// no pair of 64-bit components can overflow it.
    pub fn as_nanoseconds_i128(&self) -> (r: i128)
        ensures
            r == self.total_nanos(),
    {
        self.tv_sec as i128 * (NANOS_PER_SEC as i128) + self.tv_nsec as i128
    }

    /// The total length in whole microseconds, the sub-microsecond
    /// part of `tv_nsec` truncated toward zero.
    pub fn as_microseconds(&self) -> (r: i64)
        requires
            i64::MIN <= self.tv_sec * 1_000_000 <= i64::MAX,
            i64::MIN <= self.total_micros() <= i64::MAX,
        ensures
            r == self.total_micros(),
    {
        self.tv_sec * 1_000_000 + self.tv_nsec / 1_000
    }

    /// The total length in whole milliseconds, the sub-millisecond
    /// part of `tv_nsec` truncated toward zero.
    pub fn as_milliseconds(&self) -> (r: i64)
        requires
            i64::MIN <= self.tv_sec * 1_000 <= i64::MAX,
            i64::MIN <= self.total_millis() <= i64::MAX,
        ensures
            r == self.total_millis(),
    {
        self.tv_sec * 1_000 + self.tv_nsec / 1_000_000
    }

    /// The additive inverse, in truncated form.
    pub fn negate(self) -> (r: TimeSpec)
        requires
            self.nanos_in_range(),
            self.total_nanos() != i64::MIN,
        ensures
            r == Self::from_total_nanos(-self.total_nanos()),
            r.total_nanos() == -self.total_nanos(),
            r.is_reduced(),
            r.nanos_in_range(),
    {
        let n: i64 = self.as_nanoseconds();
        Self::nanoseconds(-n)
    }

    /// The sum of two time values, in truncated form.
    pub fn plus(self, rhs: TimeSpec) -> (r: TimeSpec)
        requires
            self.nanos_in_range(),
            rhs.nanos_in_range(),
            i64::MIN <= self.total_nanos() + rhs.total_nanos() <= i64::MAX,
        ensures
            r == Self::from_total_nanos(self.total_nanos() + rhs.total_nanos()),
            r.total_nanos() == self.total_nanos() + rhs.total_nanos(),
            r.is_reduced(),
            r.nanos_in_range(),
    {
        let n: i64 = self.as_nanoseconds() + rhs.as_nanoseconds();
        Self::nanoseconds(n)
    }

    /// The difference of two time values, in truncated form.
    pub fn minus(self, rhs: TimeSpec) -> (r: TimeSpec)
        requires
            self.nanos_in_range(),
            rhs.nanos_in_range(),
            i64::MIN <= self.total_nanos() - rhs.total_nanos() <= i64::MAX,
        ensures
            r == Self::from_total_nanos(self.total_nanos() - rhs.total_nanos()),
            r.total_nanos() == self.total_nanos() - rhs.total_nanos(),
            r.is_reduced(),
            r.nanos_in_range(),
    {
        let n: i64 = self.as_nanoseconds() - rhs.as_nanoseconds();
        Self::nanoseconds(n)
    }

    /// The time value scaled by an integer factor, in truncated form.
    /// A product beyond the 64-bit nanosecond range is excluded: the
    /// machine cannot hold it, and the operation treats overflow as
    /// fatal rather than wrapping.
    pub fn multiply_by(self, rhs: i32) -> (r: TimeSpec)
        requires
            self.nanos_in_range(),
            i64::MIN <= self.total_nanos() * rhs <= i64::MAX,
        ensures
            r == Self::from_total_nanos(self.total_nanos() * rhs),
            r.total_nanos() == self.total_nanos() * rhs,
            r.is_reduced(),
            r.nanos_in_range(),
    {
        let n: i64 = self.as_nanoseconds() * (rhs as i64);
        Self::nanoseconds(n)
    }

    /// The time value divided by an integer divisor, truncating the
    /// quotient toward zero, in truncated form.
    pub fn divide_by(self, rhs: i32) -> (r: TimeSpec)
        requires
            self.nanos_in_range(),
            rhs != 0,
            !(self.total_nanos() == i64::MIN && rhs == -1),
        ensures
            r == Self::from_total_nanos(tdiv(self.total_nanos(), rhs as int)),
            r.total_nanos() == tdiv(self.total_nanos(), rhs as int),
            r.is_reduced(),
            r.nanos_in_range(),
    {
        let n: i64 = self.as_nanoseconds();
        let d: i64 = rhs as i64;
        proof {
            lemma_tdiv_fits_i64(n as int, d as int);
        }
        let q: i64 = n / d;
        Self::nanoseconds(q)
    }
}

/// Splitting a sub-second count by its per-second unit and scaling the
/// remainder up to nanoseconds agrees with the truncated form of the
/// total nanosecond count: the quotient is the whole seconds, and the
/// scaled remainder is the nanosecond remainder.
proof fn lemma_rescale_split(n: int, unit: int, scale: int)
    requires
        (unit == 1_000 && scale == 1_000_000) || (unit == 1_000_000 && scale == 1_000),
    ensures
        tdiv(n * scale, NANOS_PER_SEC as int) == tdiv(n, unit),
        tmod(n * scale, NANOS_PER_SEC as int) == tmod(n, unit) * scale,
        -unit < tmod(n, unit) < unit,
{
    let m: int = if n >= 0 {
        n
    } else {
        -n
    };
    vstd::arithmetic::div_mod::lemma_div_multiples_vanish(m, scale);
    vstd::arithmetic::div_mod::lemma_div_denominator(m * scale, scale, unit);
    vstd::arithmetic::div_mod::lemma_mod_bound(m, unit);
    lemma_fundamental_div_mod(m, unit);
}

/// The truncated quotient of a 64-bit dividend stays within the 64-bit
/// range whenever the divisor is not zero and the one overflowing pair
/// (the smallest dividend divided by minus one) is excluded.
proof fn lemma_tdiv_fits_i64(n: int, d: int)
    requires
        i64::MIN <= n <= i64::MAX,
        d != 0,
        !(n == i64::MIN && d == -1),
    ensures
        i64::MIN <= tdiv(n, d) <= i64::MAX,
{
    broadcast use vstd::arithmetic::div_mod::lemma_div_pos_is_pos;
    broadcast use vstd::arithmetic::div_mod::lemma_div_nonincreasing;
    broadcast use vstd::arithmetic::div_mod::lemma_div_decreases;

    let m: int = if n >= 0 {
        n
    } else {
        -n
    };
    let e: int = if d > 0 {
        d
    } else {
        -d
    };
    if d < 0 {
        assert(m / d == -(m / e)) by (nonlinear_arith)
            requires
                0 <= m,
                0 < e,
                d == -e,
        ;
    }
    assert(0 <= m / e <= m);
    if m == -(i64::MIN as int) && e > 1 {
        assert(m / e < m);
    }
}

/// Law: the truncated form of any total in the 64-bit range holds that
/// total exactly, so building a time value from a nanosecond count and
/// reading the count back returns the argument unchanged.
pub proof fn lemma_total_nanos_round_trip(n: int)
    requires
        i64::MIN <= n <= i64::MAX,
    ensures
        TimeSpec::from_total_nanos(n).total_nanos() == n,
{
    let b = NANOS_PER_SEC as int;
    if n >= 0 {
        lemma_fundamental_div_mod(n, b);
    } else {
        lemma_fundamental_div_mod(-n, b);
    }
}

/// Law: adding a value and then subtracting the same value returns the
/// first operand, provided that operand is in truncated form and the
/// totals stay within the 64-bit range.
pub proof fn lemma_plus_then_minus(a: TimeSpec, b: TimeSpec)
    requires
        a.is_reduced(),
        i64::MIN <= a.total_nanos() <= i64::MAX,
        i64::MIN <= b.total_nanos() <= i64::MAX,
        i64::MIN <= a.total_nanos() + b.total_nanos() <= i64::MAX,
    ensures
        TimeSpec::from_total_nanos(
            TimeSpec::from_total_nanos(a.total_nanos() + b.total_nanos()).total_nanos()
                - b.total_nanos(),
        ) == a,
{
    lemma_total_nanos_round_trip(a.total_nanos() + b.total_nanos());
}

impl Default for Timeval {
    /// A zero time value.
    fn default() -> (r: Self)
        ensures
            r.tv_sec == 0 && r.tv_usec == 0,
    {
        Self { tv_sec: 0, tv_usec: 0 }
    }
}

impl Default for TimeSpec {
    /// A zero time value.
    fn default() -> (r: Self)
        ensures
            r.tv_sec == 0 && r.tv_nsec == 0,
    {
        Self::new()
    }
}

} // verus!
