use vstd::prelude::*;

verus! {

/// Why a resolution attempt failed.
#[derive(Clone, Copy, Debug, PartialEq, Eq, Structural)]
pub enum ResolutionError {
    /// The answer held zero usable records.
    NotFound,
    /// I/O, protocol, or timeout failure talking to the discovery backend.
    Transport,
    /// The answer could not be decoded.
    Decode,
}

} // verus!
