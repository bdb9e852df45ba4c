//! The high-level operating mode of the engine.
use vstd::prelude::*;

verus! {

/// The high-level database mode, according to the trade-offs of the
/// RUM conjecture.
#[derive(Debug, Clone, Copy, PartialEq, Eq, Structural)]
pub enum Mode {
    /// Favor using less space over write throughput; data is rewritten
    /// more frequently to reduce fragmentation.
    LowSpace,
    /// Favor write throughput, potentially using more disk space.
    HighThroughput,
}

} // verus!
