use vstd::prelude::*;

verus! {

/// Everything the server can report to its caller.
///
/// Construction returns either a fully valid server or exactly one of the
/// first two variants; the third is reserved for a stop mechanism that could
/// not halt the server cleanly.
#[derive(Clone, Copy, Debug, PartialEq, Eq, Structural)]
pub enum RpcError {
    /// The input was rejected before any operating-system interaction was
    /// attempted, e.g. an address string with an embedded NUL byte.
    InvalidInput,
    /// The transport could not be set up: bind or listen failed, or the
    /// underlying mechanism ran out of resources. The causes are collapsed
    /// into this one category because the mechanism reports no finer detail.
    ConstructionFailure,
    /// The stop mechanism reported that it could not halt the server cleanly;
    /// the server is best treated as terminated with a fault.
    ShutdownFailure,
}

} // verus!
