//! The correction-mode bitmask: independently-interpreted flags the session
//! stores and hands to the engine opaquely.

use vstd::prelude::*;

verus! {

/// No correction at all.
pub const PARANOIA_MODE_DISABLE: u32 = 0;

/// Cross-check overlapping reads against each other.
pub const PARANOIA_MODE_VERIFY: u32 = 1;

/// Tolerate fragmented reads.
pub const PARANOIA_MODE_FRAGMENT: u32 = 2;

/// Adjust the overlap search window dynamically.
pub const PARANOIA_MODE_OVERLAP: u32 = 4;

/// Detect scratches.
pub const PARANOIA_MODE_SCRATCH: u32 = 8;

/// Repair scratched or dropped spans.
pub const PARANOIA_MODE_REPAIR: u32 = 16;

/// Never skip an unreadable span, however many retries it takes.
pub const PARANOIA_MODE_NEVERSKIP: u32 = 32;

/// Every correction category at once.
pub const PARANOIA_MODE_FULL: u32 = 255;

/// A correction-mode bitmask.  The session stores it and passes it through
/// to the engine on the next read; no individual bit is interpreted here.
#[derive(Clone, Copy, Debug, PartialEq, Eq, Structural)]
pub struct ParanoiaMode {
    /// The raw flag bits.
    pub bits: u32,
}

impl ParanoiaMode {
    /// A mask holding exactly the given bits.
    pub fn from_bits(bits: u32) -> (r: ParanoiaMode)
        ensures
            r.bits == bits,
    {
        ParanoiaMode { bits }
    }

    /// The raw flag bits of this mask.
    pub fn bits(&self) -> (r: u32)
        ensures
            r == self.bits,
    {
        self.bits
    }

    /// The empty mask: correction disabled.
    pub fn empty() -> (r: ParanoiaMode)
        ensures
            r.bits == PARANOIA_MODE_DISABLE,
    {
        ParanoiaMode { bits: PARANOIA_MODE_DISABLE }
    }

    /// The aggregate preset with every correction category switched on.
    pub fn full() -> (r: ParanoiaMode)
        ensures
            r.bits == PARANOIA_MODE_FULL,
    {
        ParanoiaMode { bits: PARANOIA_MODE_FULL }
    }

    /// The mask holding the flags of both operands.
    pub fn union(self, other: ParanoiaMode) -> (r: ParanoiaMode)
        ensures
            r.bits == self.bits | other.bits,
    {
        ParanoiaMode { bits: self.bits | other.bits }
    }

    /// Whether every flag of `other` is also set in `self`.
    pub fn contains(self, other: ParanoiaMode) -> (r: bool)
        ensures
            r == (self.bits & other.bits == other.bits),
    {
        self.bits & other.bits == other.bits
    }
}

} // verus!
