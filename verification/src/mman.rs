//! Memory-locking flags.
//!
//! [`MmanFlags`] selects the scheduling behaviour of the bulk
//! memory-locking call: which mappings to lock and whether to lock
//! pages only as they are faulted in.  The flag values below are the
//! ones the common CPU architecture families use.

use vstd::prelude::*;

verus! {

/// Flag bits controlling the bulk memory-locking call.
#[derive(Debug, PartialEq, Eq, Clone)]
pub struct MmanFlags(pub i32);

impl Default for MmanFlags {
    /// An empty flag set.
    fn default() -> (r: Self)
        ensures
            r.0 == 0,
    {
        Self(0)
    }
}

impl MmanFlags {
    /// Lock all pages which are currently mapped into the address
    /// space of the process.
    pub const MCL_CURRENT: i32 = 0x01;

    /// Lock all pages which will become mapped into the address space
    /// of the process in the future, such as new pages required by a
    /// growing heap and stack, new memory-mapped files or shared
    /// memory regions.
    pub const MCL_FUTURE: i32 = 0x02;

    /// Used together with `MCL_CURRENT`, `MCL_FUTURE`, or both: mark
    /// the selected mappings to lock pages when they are faulted in
    /// rather than populating them up front.  Must be combined with at
    /// least one of the other two flags.
    pub const MCL_ONFAULT: i32 = 0x04;

    /// Check if every bit of `flag` is set.
    pub fn is_set(&self, flag: i32) -> (r: bool)
        ensures
            r == (self.0 & flag == flag),
    {
        self.0 & flag == flag
    }

    /// Set every bit of `flag`.
    pub fn set(&mut self, flag: i32)
        ensures
            final(self).0 == old(self).0 | flag,
    {
        self.0 = self.0 | flag;
    }

    /// The raw flag bits, as the kernel call takes them.
    pub fn bits(&self) -> (r: i32)
        ensures
            r == self.0,
    {
        self.0
    }

    /// Wraps raw flag bits.
    pub fn from_bits(bits: i32) -> (r: Self)
        ensures
            r.0 == bits,
    {
        Self(bits)
    }
}

} // verus!
