//! CPU affinity masks and scheduling attributes.
//!
//! [`CpuSet`] is a fixed-size bit array matching the kernel's CPU-mask
//! layout for 64-bit words: bit `core` of the logical mask lives in
//! word `core / 64`, bit `core % 64`, so the mask covers CPU indices
//! `[0, 1024)`.  [`SchedAttr`] is the plain parameter block of the
//! scheduling-attribute calls.

use vstd::prelude::*;

verus! {

/// Default scheduling policy.
pub const SCHED_NORMAL: u32 = 0;

/// First-in, first-out real-time policy.
pub const SCHED_FIFO: u32 = 1;

/// Round-robin real-time policy.
pub const SCHED_RR: u32 = 2;

/// Batch (throughput-oriented) policy.
pub const SCHED_BATCH: u32 = 3;

/// Very low priority background policy.
pub const SCHED_IDLE: u32 = 5;

/// Deadline-based policy.
pub const SCHED_DEADLINE: u32 = 6;

/// Extensible (BPF-defined) policy.
pub const SCHED_EXT: u32 = 7;

/// The scheduling-attribute parameter block: plain integer fields
/// handed to and read back from the scheduling-attribute calls.
#[derive(Debug, PartialEq, Eq, Clone)]
pub struct SchedAttr {
    /// Size of this structure in bytes.
    pub size: u32,
    /// Policy (one of the `SCHED_*` constants).
    pub sched_policy: u32,
    /// Flags.
    pub sched_flags: u64,
    /// Nice value (normal and batch policies).
    pub sched_nice: i32,
    /// Static priority (first-in-first-out and round-robin policies).
    pub sched_priority: u32,
    /// Runtime budget, for the deadline policy.
    pub sched_runtime: u64,
    /// Deadline, for the deadline policy.
    pub sched_deadline: u64,
    /// Period, for the deadline policy.
    pub sched_period: u64,
    /// Minimum utilization hint.
    pub sched_util_min: u32,
    /// Maximum utilization hint.
    pub sched_util_max: u32,
}

/// A CPU affinity mask: which CPUs a thread or process may run on.
#[derive(Debug, PartialEq, Eq, Clone)]
pub struct CpuSet {
    /// The words of the bitmap, lowest CPU indices in the first word.
    pub bits: [u64; 16],
}

impl CpuSet {
    /// Whether CPU index `core` is in the mask: bit `core % 64` of
    /// word `core / 64`.
    pub open spec fn spec_is_set(self, core: int) -> bool {
        self.bits[core / 64] & (1u64 << (core % 64) as u64) != 0
    }

    /// Create an empty [`CpuSet`]: no CPU index is in the mask.
    pub fn empty() -> (r: Self)
        ensures
            forall|i: int| 0 <= i < 16 ==> r.bits[i] == 0,
            forall|core: int| 0 <= core < 1024 ==> !r.spec_is_set(core),
    {
        let r = Self { bits: [0u64; 16] };
        proof {
            assert forall|core: int| 0 <= core < 1024 implies !r.spec_is_set(core) by {
                let b = (core % 64) as u64;
                assert(0u64 & (1u64 << b) == 0) by (bit_vector);
            }
        }
        r
    }

    /// Create a full [`CpuSet`]: every representable CPU index is in
    /// the mask.
    pub fn full() -> (r: Self)
        ensures
            forall|i: int| 0 <= i < 16 ==> r.bits[i] == u64::MAX,
            forall|core: int| 0 <= core < 1024 ==> r.spec_is_set(core),
    {
        let r = Self { bits: [u64::MAX; 16] };
        proof {
            assert forall|core: int| 0 <= core < 1024 implies r.spec_is_set(core) by {
                let b = (core % 64) as u64;
                assert(b < 64);
                assert(0xffff_ffff_ffff_ffffu64 & (1u64 << b) != 0) by (bit_vector)
                    requires
                        b < 64,
                ;
            }
        }
        r
    }

    /// Create a [`CpuSet`] from a bitmask: the low 64 bits of the mask
    /// land in the first word, every higher word stays zero.
    pub fn from_bitmask(bitmask: u64) -> (r: Self)
        ensures
            r.bits[0] == bitmask,
            forall|i: int| 1 <= i < 16 ==> r.bits[i] == 0,
            forall|core: int|
                0 <= core < 1024 ==> (r.spec_is_set(core) <==> (core < 64 && bitmask & (1u64
                    << core as u64) != 0)),
    {
        let mut cpuset = CpuSet::empty();
        cpuset.bits[0] = bitmask;
        proof {
            assert forall|core: int|
                0 <= core < 1024 implies (cpuset.spec_is_set(core) <==> (core < 64 && bitmask & (
            1u64 << core as u64) != 0)) by {
                if core < 64 {
                    assert(core / 64 == 0 && core % 64 == core);
                } else {
                    let b = (core % 64) as u64;
                    assert(0u64 & (1u64 << b) == 0) by (bit_vector);
                }
            }
        }
        cpuset
    }

    /// Add CPU index `core` to the mask; every other index keeps its
    /// membership.
    pub fn set(self, core: usize) -> (r: Self)
        requires
            core < 1024,
        ensures
            forall|i: int|
                0 <= i < 1024 ==> (r.spec_is_set(i) <==> (i == core || self.spec_is_set(i))),
            r.bits[core as int / 64] == self.bits[core as int / 64] | (1u64 << (core % 64) as u64),
            forall|i: int| 0 <= i < 16 && i != core / 64 ==> r.bits[i] == self.bits[i],
    {
        let mut cs = self;
        let idx: usize = core / 64;
        let bit: usize = core % 64;
        cs.bits[idx] = cs.bits[idx] | (1u64 << (bit as u64));
        proof {
            let w = self.bits[idx as int];
            let b = bit as u64;
            assert forall|i: int|
                0 <= i < 1024 implies (cs.spec_is_set(i) <==> (i == core
                || self.spec_is_set(i))) by {
                let bi = (i % 64) as u64;
                if i / 64 == idx {
                    assert((w | (1u64 << b)) & (1u64 << bi) != 0 <==> (bi == b || w & (1u64 << bi)
                        != 0)) by (bit_vector)
                        requires
                            b < 64,
                            bi < 64,
                    ;
                    assert(i == core <==> bi == b);
                }
            }
        }
        cs
    }

    /// Remove CPU index `core` from the mask; every other index keeps
    /// its membership.
    pub fn clear(self, core: usize) -> (r: Self)
        requires
            core < 1024,
        ensures
            forall|i: int|
                0 <= i < 1024 ==> (r.spec_is_set(i) <==> (i != core && self.spec_is_set(i))),
            r.bits[core as int / 64] == self.bits[core as int / 64] & !(1u64 << (core % 64) as u64),
            forall|i: int| 0 <= i < 16 && i != core / 64 ==> r.bits[i] == self.bits[i],
    {
        let mut cs = self;
        let idx: usize = core / 64;
        let bit: usize = core % 64;
        cs.bits[idx] = cs.bits[idx] & !(1u64 << (bit as u64));
        proof {
            let w = self.bits[idx as int];
            let b = bit as u64;
            assert forall|i: int|
                0 <= i < 1024 implies (cs.spec_is_set(i) <==> (i != core
                && self.spec_is_set(i))) by {
                let bi = (i % 64) as u64;
                if i / 64 == idx {
                    assert((w & !(1u64 << b)) & (1u64 << bi) != 0 <==> (bi != b && w & (1u64 << bi)
                        != 0)) by (bit_vector)
                        requires
                            b < 64,
                            bi < 64,
                    ;
                    assert(i == core <==> bi == b);
                }
            }
        }
        cs
    }

    /// Checks whether CPU index `core` is in the mask.
    pub fn is_set(&self, core: usize) -> (r: bool)
        requires
            core < 1024,
        ensures
            r == self.spec_is_set(core as int),
    {
        let idx: usize = core / 64;
        let bit: usize = core % 64;
        self.bits[idx] & (1u64 << (bit as u64)) > 0
    }

    /// Returns the size of a [`CpuSet`] in bytes: sixteen 64-bit
    /// words.  The kernel affinity calls take this as their explicit
    /// byte-length argument.
    pub fn size_of() -> (r: usize)
        ensures
            r == 128,
    {
        128
    }
}

/// Law: adding one CPU index to the empty mask marks exactly that
/// index: membership holds for it and for no other index.
pub proof fn lemma_set_on_empty(e: CpuSet, s: CpuSet, core: usize)
    requires
        core < 1024,
        forall|i: int| 0 <= i < 1024 ==> !e.spec_is_set(i),
        forall|i: int| 0 <= i < 1024 ==> (s.spec_is_set(i) <==> (i == core || e.spec_is_set(i))),
    ensures
        s.spec_is_set(core as int),
        forall|i: int| 0 <= i < 1024 && i != core ==> !s.spec_is_set(i),
{
}

} // verus!
