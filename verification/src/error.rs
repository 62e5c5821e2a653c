use vstd::prelude::*;

verus! {

/// Why a construction or a parameter change was rejected.  The engine's
/// prior state is left unchanged whenever one of these is returned.
#[derive(Clone, Copy, Debug, PartialEq, Eq, Structural)]
pub enum Error {
    /// The tempo is zero, or so fast that a tick lasts under a microsecond.
    Tempo,
    /// A lane index is out of range, or more lanes were given than fit.
    Lane,
    /// A pattern length of zero or above capacity, or a density above the length.
    Pattern,
    /// A rate whose cycle length comes out as zero ticks or beyond `u32`.
    Cycle,
    /// A pulse width whose off point comes out as zero ticks.
    Width,
}

} // verus!
