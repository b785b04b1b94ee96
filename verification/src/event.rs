//! The synchronous progress-event protocol a read emits into.

use vstd::prelude::*;

verus! {

/// What a progress event reports.  The engine may emit any of these zero or
/// more times during a single read, on the same call stack.
#[derive(Clone, Copy, Debug, PartialEq, Eq, Structural)]
#[non_exhaustive]
pub enum EventKind {
    /// A sector was read.
    Read,
    /// Overlapping reads were cross-checked for jitter.
    VerifyJitter,
    /// Jitter at a fragment edge was fixed.
    FixedEdgeJitter,
    /// Jitter inside an atom was fixed.
    FixedAtomJitter,
    /// A scratch was detected.
    ScratchDetected,
    /// A repair was applied.
    RepairApplied,
    /// A span was skipped after the retry budget ran out.
    SkipRetryExhausted,
    /// Drift was given up on after the retry budget ran out.
    DriftRetryExhausted,
    /// The engine backed off before retrying.
    BackoffApplied,
    /// The overlap search window was adjusted dynamically.
    DynamicOverlapAdjusted,
    /// Dropped bytes were fixed.
    DroppedBytesFixed,
    /// Duplicated bytes were fixed.
    DuplicatedBytesFixed,
    /// A read error was encountered.
    ReadError,
    /// A cache error was encountered.
    CacheError,
    /// An event this taxonomy does not name.
    Unknown,
}

/// The synchronous notification contract used during reads.  The sink is
/// invoked zero or more times per read, on the same call stack as the read;
/// it must not re-enter the session and cannot cancel the in-flight read.
pub trait EventSink {
    /// Called for each progress event, with the absolute sector the event
    /// concerns and what happened there.
    fn notify(&mut self, position: u64, kind: EventKind);
}

} // verus!
