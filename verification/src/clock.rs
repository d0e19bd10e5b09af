//! Clock identifiers and the clock-adjustment record.
//!
//! [`ClockId`] names the kernel clock an operation acts on.  [`Timex`]
//! is the caller-facing, semantically named adjustment record;
//! [`TimexRaw`] is its exact kernel mirror, with the same fields in the
//! same declared order, interleaved with the padding words the kernel
//! layout demands and a trailing reserved block that is always zero
//! on input.  The two conversions between them are lossless for every
//! named field.

use vstd::prelude::*;

use crate::time::Timeval;

verus! {

/// A settable system-wide clock measuring real (wall-clock) time.
pub const CLOCK_REALTIME: i32 = 0;

/// A nonsettable system-wide clock measuring monotonic time since boot,
/// not counting time the system is suspended.
pub const CLOCK_MONOTONIC: i32 = 1;

/// CPU time consumed by all threads in this process.
pub const CLOCK_PROCESS_CPUTIME_ID: i32 = 2;

/// CPU time consumed by this thread.
pub const CLOCK_THREAD_CPUTIME_ID: i32 = 3;

/// Raw hardware-based monotonic time, free of clock-discipline
/// adjustments.
pub const CLOCK_MONOTONIC_RAW: i32 = 4;

/// A faster but less precise version of the realtime clock.
pub const CLOCK_REALTIME_COARSE: i32 = 5;

/// A faster but less precise version of the monotonic clock.
pub const CLOCK_MONOTONIC_COARSE: i32 = 6;

/// Like the monotonic clock, but also counting time the system is
/// suspended.
pub const CLOCK_BOOTTIME: i32 = 7;

/// Like the realtime clock, usable with alarm timers.
pub const CLOCK_REALTIME_ALARM: i32 = 8;

/// Like the boottime clock, usable with alarm timers.
pub const CLOCK_BOOTTIME_ALARM: i32 = 9;

/// Wall-clock time ignoring leap seconds (International Atomic Time).
/// The identifier value below this one is a retired placeholder and is
/// never recognized.
pub const CLOCK_TAI: i32 = 11;

/// Flag selecting an absolute rather than relative deadline for a
/// high-resolution sleep.
pub const TIMER_ABSTIME: i32 = 0x01;

/// The identifier of the particular clock on which to act.  A clock
/// may be system-wide and hence visible for all processes, or
/// per-process if it measures time only within a single process.
#[derive(Debug, PartialEq, Eq, Clone, Copy)]
pub enum ClockId {
    /// The settable system-wide wall-clock time.
    ClockRealtime,
    /// Like the realtime clock, usable with alarm timers.
    ClockRealtimeAlarm,
    /// A faster but less precise version of the realtime clock.
    ClockRealtimeCoarse,
    /// Wall-clock time ignoring leap seconds (International Atomic
    /// Time).
    ClockTai,
    /// Monotonic time since boot, not counting suspension.
    ClockMonotonic,
    /// A faster but less precise version of the monotonic clock.
    ClockMonotonicCoarse,
    /// Raw hardware-based monotonic time, free of adjustments.
    ClockMonotonicRaw,
    /// Monotonic time since boot, counting suspension.
    ClockBoottime,
    /// Like the boottime clock, usable with alarm timers.
    ClockBoottimeAlarm,
    /// CPU time consumed by all threads in this process.
    ClockProcessCputimeId,
    /// CPU time consumed by this thread.
    ClockThreadCputimeId,
}

impl ClockId {
    /// The raw identifier this clock is known by to the kernel.
    pub open spec fn spec_as_raw(self) -> i32 {
        match self {
            ClockId::ClockRealtime => CLOCK_REALTIME,
            ClockId::ClockRealtimeAlarm => CLOCK_REALTIME_ALARM,
            ClockId::ClockRealtimeCoarse => CLOCK_REALTIME_COARSE,
            ClockId::ClockTai => CLOCK_TAI,
            ClockId::ClockMonotonic => CLOCK_MONOTONIC,
            ClockId::ClockMonotonicCoarse => CLOCK_MONOTONIC_COARSE,
            ClockId::ClockMonotonicRaw => CLOCK_MONOTONIC_RAW,
            ClockId::ClockBoottime => CLOCK_BOOTTIME,
            ClockId::ClockBoottimeAlarm => CLOCK_BOOTTIME_ALARM,
            ClockId::ClockProcessCputimeId => CLOCK_PROCESS_CPUTIME_ID,
            ClockId::ClockThreadCputimeId => CLOCK_THREAD_CPUTIME_ID,
        }
    }

    /// The clock a raw identifier names, if it names one: recognized
    /// values give `Some`, every other integer gives `None`.
    pub open spec fn spec_from_raw(clockid: i32) -> Option<ClockId> {
        if clockid == CLOCK_REALTIME {
            Some(ClockId::ClockRealtime)
        } else if clockid == CLOCK_REALTIME_ALARM {
            Some(ClockId::ClockRealtimeAlarm)
        } else if clockid == CLOCK_REALTIME_COARSE {
            Some(ClockId::ClockRealtimeCoarse)
        } else if clockid == CLOCK_TAI {
            Some(ClockId::ClockTai)
        } else if clockid == CLOCK_MONOTONIC {
            Some(ClockId::ClockMonotonic)
        } else if clockid == CLOCK_MONOTONIC_COARSE {
            Some(ClockId::ClockMonotonicCoarse)
        } else if clockid == CLOCK_MONOTONIC_RAW {
            Some(ClockId::ClockMonotonicRaw)
        } else if clockid == CLOCK_BOOTTIME {
            Some(ClockId::ClockBoottime)
        } else if clockid == CLOCK_BOOTTIME_ALARM {
            Some(ClockId::ClockBoottimeAlarm)
        } else if clockid == CLOCK_PROCESS_CPUTIME_ID {
            Some(ClockId::ClockProcessCputimeId)
        } else if clockid == CLOCK_THREAD_CPUTIME_ID {
            Some(ClockId::ClockThreadCputimeId)
        } else {
            None
        }
    }

    /// Get the raw clock identifier.
    pub fn as_raw(&self) -> (r: i32)
        ensures
            r == self.spec_as_raw(),
    {
        match self {
            ClockId::ClockRealtime => CLOCK_REALTIME,
            ClockId::ClockRealtimeAlarm => CLOCK_REALTIME_ALARM,
            ClockId::ClockRealtimeCoarse => CLOCK_REALTIME_COARSE,
            ClockId::ClockTai => CLOCK_TAI,
            ClockId::ClockMonotonic => CLOCK_MONOTONIC,
            ClockId::ClockMonotonicCoarse => CLOCK_MONOTONIC_COARSE,
            ClockId::ClockMonotonicRaw => CLOCK_MONOTONIC_RAW,
            ClockId::ClockBoottime => CLOCK_BOOTTIME,
            ClockId::ClockBoottimeAlarm => CLOCK_BOOTTIME_ALARM,
            ClockId::ClockProcessCputimeId => CLOCK_PROCESS_CPUTIME_ID,
            ClockId::ClockThreadCputimeId => CLOCK_THREAD_CPUTIME_ID,
        }
    }

    /// Creates a [`ClockId`] from a raw clock identifier; unrecognized
    /// values give `None`.
    pub fn from_raw(clockid: i32) -> (r: Option<Self>)
        ensures
            r == Self::spec_from_raw(clockid),
    {
        if clockid == CLOCK_REALTIME {
            Some(ClockId::ClockRealtime)
        } else if clockid == CLOCK_REALTIME_ALARM {
            Some(ClockId::ClockRealtimeAlarm)
        } else if clockid == CLOCK_REALTIME_COARSE {
            Some(ClockId::ClockRealtimeCoarse)
        } else if clockid == CLOCK_TAI {
            Some(ClockId::ClockTai)
        } else if clockid == CLOCK_MONOTONIC {
            Some(ClockId::ClockMonotonic)
        } else if clockid == CLOCK_MONOTONIC_COARSE {
            Some(ClockId::ClockMonotonicCoarse)
        } else if clockid == CLOCK_MONOTONIC_RAW {
            Some(ClockId::ClockMonotonicRaw)
        } else if clockid == CLOCK_BOOTTIME {
            Some(ClockId::ClockBoottime)
        } else if clockid == CLOCK_BOOTTIME_ALARM {
            Some(ClockId::ClockBoottimeAlarm)
        } else if clockid == CLOCK_PROCESS_CPUTIME_ID {
            Some(ClockId::ClockProcessCputimeId)
        } else if clockid == CLOCK_THREAD_CPUTIME_ID {
            Some(ClockId::ClockThreadCputimeId)
        } else {
            None
        }
    }
}

/// The modes field determines which parameters, if any, to set.  It is
/// a bit mask containing a bitwise OR combination of zero or more of
/// the constants below.
#[derive(Debug, PartialEq, Eq, Clone)]
pub struct TimexMode(pub u32);

impl Default for TimexMode {
    /// An empty mode mask: no parameter selected.
    fn default() -> (r: Self)
        ensures
            r.0 == 0,
    {
        Self(0)
    }
}

impl TimexMode {
    /// time offset
    pub const ADJ_OFFSET: u32 = 0x0001;

    /// frequency offset
    pub const ADJ_FREQUENCY: u32 = 0x0002;

    /// maximum time error
    pub const ADJ_MAXERROR: u32 = 0x0004;

    /// estimated time error
    pub const ADJ_ESTERROR: u32 = 0x0008;

    /// clock status
    pub const ADJ_STATUS: u32 = 0x0010;

    /// pll time constant
    pub const ADJ_TIMECONST: u32 = 0x0020;

    /// set TAI offset
    pub const ADJ_TAI: u32 = 0x0080;

    /// add 'time' to current time
    pub const ADJ_SETOFFSET: u32 = 0x0100;

    /// select microsecond resolution
    pub const ADJ_MICRO: u32 = 0x1000;

    /// select nanosecond resolution
    pub const ADJ_NANO: u32 = 0x2000;

    /// tick value
    pub const ADJ_TICK: u32 = 0x4000;

    /// Check if every bit of `mode` is set.
    pub fn is_set(&self, mode: u32) -> (r: bool)
        ensures
            r == (self.0 & mode == mode),
    {
        self.0 & mode == mode
    }

    /// Set every bit of `mode`.
    pub fn set(&mut self, mode: u32)
        ensures
            final(self).0 == old(self).0 | mode,
    {
        self.0 = self.0 | mode;
    }

    /// The raw bit mask.
    pub fn as_raw(&self) -> (r: u32)
        ensures
            r == self.0,
    {
        self.0
    }

    /// Wraps a raw bit mask.
    pub fn from_raw(raw: u32) -> (r: Self)
        ensures
            r.0 == raw,
    {
        Self(raw)
    }
}

/// The status field is a bit mask that is used to set and/or retrieve
/// status bits associated with the kernel's clock discipline.  Some
/// bits in the mask are both readable and settable, while others are
/// read-only.
#[derive(Debug, PartialEq, Eq, Clone)]
pub struct StatusCodes(pub i32);

impl Default for StatusCodes {
    /// An empty status mask: no status bit set.
    fn default() -> (r: Self)
        ensures
            r.0 == 0,
    {
        Self(0)
    }
}

impl StatusCodes {
    /// enable PLL updates (rw)
    pub const STA_PLL: i32 = 0x0001;

    /// enable PPS freq discipline (rw)
    pub const STA_PPSFREQ: i32 = 0x0002;

    /// enable PPS time discipline (rw)
    pub const STA_PPSTIME: i32 = 0x0004;

    /// select frequency-lock mode (rw)
    pub const STA_FLL: i32 = 0x0008;

    /// insert leap (rw)
    pub const STA_INS: i32 = 0x0010;

    /// delete leap (rw)
    pub const STA_DEL: i32 = 0x0020;

    /// clock unsynchronized (rw)
    pub const STA_UNSYNC: i32 = 0x0040;

    /// hold frequency (rw)
    pub const STA_FREQHOLD: i32 = 0x0080;

    /// PPS signal present (ro)
    pub const STA_PPSSIGNAL: i32 = 0x0100;

    /// PPS signal jitter exceeded (ro)
    pub const STA_PPSJITTER: i32 = 0x0200;

    /// PPS signal wander exceeded (ro)
    pub const STA_PPSWANDER: i32 = 0x0400;

    /// PPS signal calibration error (ro)
    pub const STA_PPSERROR: i32 = 0x0800;

    /// clock hardware fault (ro)
    pub const STA_CLOCKERR: i32 = 0x1000;

    /// resolution (0 = us, 1 = ns) (ro)
    pub const STA_NANO: i32 = 0x2000;

    /// mode (0 = PLL, 1 = FLL) (ro)
    pub const STA_MODE: i32 = 0x4000;

    /// clock source (0 = A, 1 = B) (ro)
    pub const STA_CLK: i32 = 0x8000;

    /// Check if every bit of `status_code` is set.
    pub fn is_set(&self, status_code: i32) -> (r: bool)
        ensures
            r == (self.0 & status_code == status_code),
    {
        self.0 & status_code == status_code
    }

    /// Set every bit of `status_code`.
    pub fn set(&mut self, status_code: i32)
        ensures
            final(self).0 == old(self).0 | status_code,
    {
        self.0 = self.0 | status_code;
    }

    /// The raw bit mask.
    pub fn as_raw(&self) -> (r: i32)
        ensures
            r == self.0,
    {
        self.0
    }

    /// Wraps a raw bit mask.
    pub fn from_raw(raw: i32) -> (r: Self)
        ensures
            r.0 == raw,
    {
        Self(raw)
    }
}

/// The caller-facing clock-adjustment record: the fields a clock
/// adjustment may set or read back, under semantic names and without
/// any padding or reserved slots.
#[derive(Debug, PartialEq, Clone)]
pub struct Timex {
    /// Mode selector: which of the other fields to apply.
    pub modes: TimexMode,
    /// Time offset; nanoseconds if `STA_NANO` is set, otherwise
    /// microseconds.
    pub offset: i64,
    /// Frequency offset.
    pub freq: i64,
    /// Maximum error in microseconds.
    pub maxerror: i64,
    /// Estimated error in microseconds.
    pub esterror: i64,
    /// Clock command/status flags.
    pub status: StatusCodes,
    /// PLL (phase-locked loop) time constant.
    pub constant: i64,
    /// Clock precision (microseconds, read-only).
    pub precision: i64,
    /// Clock frequency tolerance (read-only).
    pub tolerance: i64,
    /// Current time (read-only except for `ADJ_SETOFFSET`).
    ///
    /// If `STA_NANO` is set, `time.tv_usec` contains nanoseconds;
    /// otherwise microseconds.
    pub time: Timeval,
    /// Microseconds between clock ticks.
    pub tick: i64,
    /// PPS (pulse-per-second) frequency (read-only).
    pub ppsfreq: i64,
    /// PPS jitter (nanoseconds if `STA_NANO` is set, otherwise
    /// microseconds).
    pub jitter: i64,
    /// PPS interval duration (seconds, read-only).
    pub shift: i64,
    /// PPS stability (read-only).
    pub stabil: i64,
    /// Count of PPS jitter limit exceeded events (read-only).
    pub jitcnt: i64,
    /// Count of PPS calibration intervals (read-only).
    pub calcnt: i64,
    /// Count of PPS calibration errors (read-only).
    pub errcnt: i64,
    /// Count of PPS stability limit exceeded events (read-only).
    pub stbcnt: i64,
    /// TAI offset, as set by a previous `ADJ_TAI` operation
    /// (seconds, read-only).
    pub tai: i32,
}

impl Default for Timex {
    /// The all-zero record: an empty mode mask, so a no-op adjustment
    /// that only reads the kernel's current values back.
    fn default() -> (r: Self)
        ensures
            r.modes.0 == 0,
            r.offset == 0,
            r.freq == 0,
            r.maxerror == 0,
            r.esterror == 0,
            r.status.0 == 0,
            r.constant == 0,
            r.precision == 0,
            r.tolerance == 0,
            r.time.tv_sec == 0,
            r.time.tv_usec == 0,
            r.tick == 0,
            r.ppsfreq == 0,
            r.jitter == 0,
            r.shift == 0,
            r.stabil == 0,
            r.jitcnt == 0,
            r.calcnt == 0,
            r.errcnt == 0,
            r.stbcnt == 0,
            r.tai == 0,
    {
        Timex {
            modes: TimexMode(0),
            offset: 0,
            freq: 0,
            maxerror: 0,
            esterror: 0,
            status: StatusCodes(0),
            constant: 0,
            precision: 0,
            tolerance: 0,
            time: Timeval { tv_sec: 0, tv_usec: 0 },
            tick: 0,
            ppsfreq: 0,
            jitter: 0,
            shift: 0,
            stabil: 0,
            jitcnt: 0,
            calcnt: 0,
            errcnt: 0,
            stbcnt: 0,
            tai: 0,
        }
    }
}

/// The kernel mirror of [`Timex`]: the same fields in the same
/// declared order, with an explicit padding word after each field
/// narrower than the natural alignment and a trailing reserved block
/// that must be zero on input and carries no information on output.
#[derive(Debug, PartialEq, Clone, Copy)]
pub struct TimexRaw {
    /// Mode selector: which of the other fields to apply.
    pub modes: u32,
    /// Padding up to the alignment of the next field.
    pub _pad: u32,
    /// Time offset; nanoseconds if `STA_NANO` is set, otherwise
    /// microseconds.
    pub offset: i64,
    /// Frequency offset.
    pub freq: i64,
    /// Maximum error in microseconds.
    pub maxerror: i64,
    /// Estimated error in microseconds.
    pub esterror: i64,
    /// Clock command/status flags.
    pub status: i32,
    /// Padding up to the alignment of the next field.
    pub _pad2: u32,
    /// PLL (phase-locked loop) time constant.
    pub constant: i64,
    /// Clock precision (microseconds, read-only).
    pub precision: i64,
    /// Clock frequency tolerance (read-only).
    pub tolerance: i64,
    /// Current time (read-only except for `ADJ_SETOFFSET`).
    pub time: Timeval,
    /// Microseconds between clock ticks.
    pub tick: i64,
    /// PPS (pulse-per-second) frequency (read-only).
    pub ppsfreq: i64,
    /// PPS jitter (read-only).
    pub jitter: i64,
    /// PPS interval duration (seconds, read-only).
    pub shift: i64,
    /// Padding up to the alignment of the next field.
    pub _pad3: u32,
    /// PPS stability (read-only).
    pub stabil: i64,
    /// Count of PPS jitter limit exceeded events (read-only).
    pub jitcnt: i64,
    /// Count of PPS calibration intervals (read-only).
    pub calcnt: i64,
    /// Count of PPS calibration errors (read-only).
    pub errcnt: i64,
    /// Count of PPS stability limit exceeded events (read-only).
    pub stbcnt: i64,
    /// TAI offset (seconds, read-only).
    pub tai: i32,
    /// Reserved space for future expansion; always zero on input.
    pub __reserved: [u32; 11],
}

/// Whether `m` is the kernel mirror of the record `t`: every named
/// field carried over unchanged, every padding word and every reserved
/// slot zero.
pub open spec fn is_mirror_of(m: TimexRaw, t: Timex) -> bool {
    &&& m.modes == t.modes.0
    &&& m._pad == 0
    &&& m.offset == t.offset
    &&& m.freq == t.freq
    &&& m.maxerror == t.maxerror
    &&& m.esterror == t.esterror
    &&& m.status == t.status.0
    &&& m._pad2 == 0
    &&& m.constant == t.constant
    &&& m.precision == t.precision
    &&& m.tolerance == t.tolerance
    &&& m.time == t.time
    &&& m.tick == t.tick
    &&& m.ppsfreq == t.ppsfreq
    &&& m.jitter == t.jitter
    &&& m.shift == t.shift
    &&& m._pad3 == 0
    &&& m.stabil == t.stabil
    &&& m.jitcnt == t.jitcnt
    &&& m.calcnt == t.calcnt
    &&& m.errcnt == t.errcnt
    &&& m.stbcnt == t.stbcnt
    &&& m.tai == t.tai
    &&& forall|i: int| 0 <= i < 11 ==> m.__reserved[i] == 0
}

/// Whether `t` is the record read back from the mirror `m`: every
/// named field carried over unchanged, padding and reserved slots
/// ignored.
pub open spec fn is_record_of(t: Timex, m: TimexRaw) -> bool {
    &&& t.modes.0 == m.modes
    &&& t.offset == m.offset
    &&& t.freq == m.freq
    &&& t.maxerror == m.maxerror
    &&& t.esterror == m.esterror
    &&& t.status.0 == m.status
    &&& t.constant == m.constant
    &&& t.precision == m.precision
    &&& t.tolerance == m.tolerance
    &&& t.time == m.time
    &&& t.tick == m.tick
    &&& t.ppsfreq == m.ppsfreq
    &&& t.jitter == m.jitter
    &&& t.shift == m.shift
    &&& t.stabil == m.stabil
    &&& t.jitcnt == m.jitcnt
    &&& t.calcnt == m.calcnt
    &&& t.errcnt == m.errcnt
    &&& t.stbcnt == m.stbcnt
    &&& t.tai == m.tai
}

impl TimexRaw {
    /// Builds the kernel mirror of a record, field by field in
    /// declared order, zero-filling every padding and reserved slot.
    pub fn from_timex(timex: &Timex) -> (r: Self)
        ensures
            is_mirror_of(r, *timex),
    {
        Self {
            modes: timex.modes.as_raw(),
            _pad: 0,
            offset: timex.offset,
            freq: timex.freq,
            maxerror: timex.maxerror,
            esterror: timex.esterror,
            status: timex.status.as_raw(),
            _pad2: 0,
            constant: timex.constant,
            precision: timex.precision,
            tolerance: timex.tolerance,
            time: timex.time,
            tick: timex.tick,
            ppsfreq: timex.ppsfreq,
            jitter: timex.jitter,
            shift: timex.shift,
            _pad3: 0,
            stabil: timex.stabil,
            jitcnt: timex.jitcnt,
            calcnt: timex.calcnt,
            errcnt: timex.errcnt,
            stbcnt: timex.stbcnt,
            tai: timex.tai,
            __reserved: [0u32; 11],
        }
    }

    /// Reads the record back out of a mirror, ignoring padding and
    /// reserved slots and re-wrapping the two bit masks as their
    /// flag value types.
    pub fn into_timex(self) -> (r: Timex)
        ensures
            is_record_of(r, self),
    {
        Timex {
            modes: TimexMode::from_raw(self.modes),
            offset: self.offset,
            freq: self.freq,
            maxerror: self.maxerror,
            esterror: self.esterror,
            status: StatusCodes::from_raw(self.status),
            constant: self.constant,
            precision: self.precision,
            tolerance: self.tolerance,
            time: self.time,
            tick: self.tick,
            ppsfreq: self.ppsfreq,
            jitter: self.jitter,
            shift: self.shift,
            stabil: self.stabil,
            jitcnt: self.jitcnt,
            calcnt: self.calcnt,
            errcnt: self.errcnt,
            stbcnt: self.stbcnt,
            tai: self.tai,
        }
    }
}

/// Law: building the kernel mirror of a record and reading it back
/// preserves every named field exactly, whatever the record held.
pub proof fn lemma_mirror_round_trip(t: Timex, m: TimexRaw, t2: Timex)
    requires
        is_mirror_of(m, t),
        is_record_of(t2, m),
    ensures
        t2 == t,
{
}

/// Law: converting any clock identifier to its raw value and back
/// recognizes it and returns the same identifier.
pub proof fn lemma_clock_id_round_trip(c: ClockId)
    ensures
        ClockId::spec_from_raw(c.spec_as_raw()) == Some(c),
{
}

/// Law: a raw value is recognized exactly when it is one of the
/// defined clock identifiers; every other integer gives `None`.
pub proof fn lemma_clock_id_recognized(clockid: i32)
    ensures
        ClockId::spec_from_raw(clockid) is None <==> !(CLOCK_REALTIME <= clockid
            <= CLOCK_BOOTTIME_ALARM || clockid == CLOCK_TAI),
        ClockId::spec_from_raw(clockid) is Some ==> ClockId::spec_from_raw(
            clockid,
        ).unwrap().spec_as_raw() == clockid,
{
}

} // verus!
