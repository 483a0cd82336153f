use vstd::prelude::*;

verus! {

/// Why an operation could not produce its byte sequence.
#[derive(Clone, Copy, Debug, PartialEq, Eq, Structural)]
pub enum Error {
    /// The capability is not present in the database.
    CapabilityMissing,
    /// The capability's template could not be expanded.
    Expansion,
}

} // verus!
